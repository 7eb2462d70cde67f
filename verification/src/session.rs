//! The session controller: it opens the portal in a browser tab and logs the
//! student in.

use vstd::prelude::*;
use crate::config::{PortalConfig, PortalConfigView};
use crate::driver::{Command, CommandView, Reply, ReplyView, Step, StepView, POLL_INTERVAL_SECS};
use crate::driver::{action_error, click_error, typing_error, unless};
use crate::driver::{check_action, check_click, check_typing, reply_view};
use crate::error::{Credential, PortalError, Target};
use crate::poll::{begin, observe, spec_begin, spec_observe, Poll};

verus! {

/// A session that has been opened on the portal's entry page. A value of this
/// type comes only out of `BrowserTab::new`, at the end of a launch that
/// went through.
#[derive(Debug, PartialEq, Eq)]
pub struct BrowserTab {
    config: PortalConfig,
}

impl View for BrowserTab {
    type V = PortalConfigView;

    closed spec fn view(&self) -> PortalConfigView {
        self.config@
    }
}

/// Where the launch of a session stands: each state but `Start` names the
/// command whose reply is awaited.
#[derive(Debug, Clone, Copy, PartialEq, Eq)]
pub enum OpenState {
    /// Nothing has been asked of the driver yet.
    Start,
    /// `Launch` is pending.
    Launching,
    /// `OpenTab` is pending.
    OpeningTab,
    /// `Navigate` to the entry page is pending.
    Navigating,
    /// `AwaitLoad` is pending.
    Settling,
}

/// Where a login stands: each state but `Start` names the command whose reply
/// is awaited.
#[derive(Debug, Clone, Copy, PartialEq, Eq)]
pub enum LoginState {
    /// Nothing has been asked of the driver yet.
    Start,
    /// `ReadUrl` is pending, to see whether the tab is at the dashboard
    /// already.
    PreCheck,
    /// The click on the student login input is pending.
    FocusUsername,
    /// Typing the student login is pending.
    TypeUsername,
    /// The click on the password input is pending.
    FocusPassword,
    /// Typing the password is pending.
    TypePassword,
    /// The click on the submit control is pending.
    Submit,
    /// `Sleep` is pending; so many polls are left, the coming one included.
    Pausing(u32),
    /// `ReadUrl` is pending; so many polls are left, this one included.
    Polling(u32),
}

impl View for OpenState {
    type V = OpenState;

    open spec fn view(&self) -> OpenState {
        *self
    }
}

impl View for LoginState {
    type V = LoginState;

    open spec fn view(&self) -> LoginState {
        *self
    }
}

/// What a login reports when the tab was at the dashboard before the form
/// was touched.
pub open spec fn already_logged_in() -> (Seq<char>, bool) {
    ("Already logged in"@, true)
}

/// What a login reports when a poll found the tab at the dashboard.
pub open spec fn logged_in() -> (Seq<char>, bool) {
    ("Successfully logged in"@, true)
}

/// What a login reports when no poll found the tab at the dashboard. This is
/// a result, not an error.
pub open spec fn login_failed() -> (Seq<char>, bool) {
    ("Failed to login"@, false)
}

/// The launch of a session, as a transition function: the browser is
/// started, a tab is opened and sent to the entry page, and the load is
/// awaited. A failure to start the browser or to open the tab is `Launch`,
/// one to load the page is `Navigation`.
pub open spec fn open_next(
    config: PortalConfigView,
    state: OpenState,
    reply: Option<ReplyView>,
) -> StepView<OpenState, PortalConfigView> {
    match state {
        OpenState::Start => match reply {
            None => StepView::Continue { state: OpenState::Launching, command: CommandView::Launch },
            Some(_) => StepView::unexpected(),
        },
        OpenState::Launching => unless(
            action_error(reply, PortalError::Launch),
            StepView::Continue { state: OpenState::OpeningTab, command: CommandView::OpenTab },
        ),
        OpenState::OpeningTab => unless(
            action_error(reply, PortalError::Launch),
            StepView::Continue {
                state: OpenState::Navigating,
                command: CommandView::Navigate(config.base_url),
            },
        ),
        OpenState::Navigating => unless(
            action_error(reply, PortalError::Navigation),
            StepView::Continue { state: OpenState::Settling, command: CommandView::AwaitLoad },
        ),
        OpenState::Settling => unless(
            action_error(reply, PortalError::Navigation),
            StepView::Finished(Ok(config)),
        ),
    }
}

/// The step a login takes on what a poll decided.
pub open spec fn login_poll(poll: Poll) -> StepView<LoginState, (Seq<char>, bool)> {
    match poll {
        Poll::Arrived => StepView::Finished(Ok(logged_in())),
        Poll::Again(remaining) => StepView::Continue {
            state: LoginState::Pausing(remaining),
            command: CommandView::Sleep(POLL_INTERVAL_SECS),
        },
        Poll::Exhausted => StepView::Finished(Ok(login_failed())),
    }
}

/// The login, as a transition function.
///
/// The tab's address is read first. A tab that is at the dashboard is logged
/// in already, and the form is left alone. Otherwise the student login input
/// is clicked and the login typed, the password input is clicked and the
/// password typed, and the submit control is clicked. Then the address is
/// polled, with a pause before each read, until it is the dashboard or
/// `login_retries` reads have been made.
pub open spec fn login_next(
    config: PortalConfigView,
    student_login: Seq<char>,
    password: Seq<char>,
    state: LoginState,
    reply: Option<ReplyView>,
) -> StepView<LoginState, (Seq<char>, bool)> {
    match state {
        LoginState::Start => match reply {
            None => StepView::Continue { state: LoginState::PreCheck, command: CommandView::ReadUrl },
            Some(_) => StepView::unexpected(),
        },
        LoginState::PreCheck => match reply {
            Some(ReplyView::Url(url)) => if url == config.dashboard_url {
                StepView::Finished(Ok(already_logged_in()))
            } else {
                StepView::Continue {
                    state: LoginState::FocusUsername,
                    command: CommandView::Click(Target::UsernameInput),
                }
            },
            _ => StepView::unexpected(),
        },
        LoginState::FocusUsername => unless(
            click_error(reply, Target::UsernameInput),
            StepView::Continue {
                state: LoginState::TypeUsername,
                command: CommandView::Type(student_login),
            },
        ),
        LoginState::TypeUsername => unless(
            typing_error(reply, Credential::StudentLogin),
            StepView::Continue {
                state: LoginState::FocusPassword,
                command: CommandView::Click(Target::PasswordInput),
            },
        ),
        LoginState::FocusPassword => unless(
            click_error(reply, Target::PasswordInput),
            StepView::Continue {
                state: LoginState::TypePassword,
                command: CommandView::Type(password),
            },
        ),
        LoginState::TypePassword => unless(
            typing_error(reply, Credential::Password),
            StepView::Continue {
                state: LoginState::Submit,
                command: CommandView::Click(Target::SubmitButton),
            },
        ),
        LoginState::Submit => unless(
            click_error(reply, Target::SubmitButton),
            login_poll(spec_begin(config.login_retries)),
        ),
        LoginState::Pausing(remaining) => match reply {
            Some(ReplyView::Done) => StepView::Continue {
                state: LoginState::Polling(remaining),
                command: CommandView::ReadUrl,
            },
            _ => StepView::unexpected(),
        },
        LoginState::Polling(remaining) => match reply {
            Some(ReplyView::Url(url)) => login_poll(
                spec_observe(remaining, url, config.dashboard_url),
            ),
            _ => StepView::unexpected(),
        },
    }
}

fn login_on_poll(poll: Poll) -> (step: Step<LoginState, (String, bool)>)
    ensures
        step@ == login_poll(poll),
{
    match poll {
        Poll::Arrived => Step::Finished(Ok(("Successfully logged in".to_owned(), true))),
        Poll::Again(remaining) => Step::Continue {
            state: LoginState::Pausing(remaining),
            command: Command::Sleep(POLL_INTERVAL_SECS),
        },
        Poll::Exhausted => Step::Finished(Ok(("Failed to login".to_owned(), false))),
    }
}

impl BrowserTab {
    /// The settings the session was opened with.
    pub fn config(&self) -> (config: &PortalConfig)
        ensures
            config@ == self@,
    {
        &self.config
    }

    /// One step of the launch of a session: `open_next` on the views. The
    /// launch begins with `OpenState::Start` and no reply, and ends with the
    /// session or with the error.
    pub fn new(config: &PortalConfig, state: OpenState, reply: Option<Reply>) -> (step: Step<
        OpenState,
        BrowserTab,
    >)
        ensures
            step@ == open_next(config@, state, reply_view(reply)),
    {
        match state {
            OpenState::Start => match reply {
                None => Step::Continue { state: OpenState::Launching, command: Command::Launch },
                Some(_) => Step::unexpected(),
            },
            OpenState::Launching => match check_action(&reply, PortalError::Launch) {
                None => Step::Continue { state: OpenState::OpeningTab, command: Command::OpenTab },
                Some(error) => Step::failed(error),
            },
            OpenState::OpeningTab => match check_action(&reply, PortalError::Launch) {
                None => Step::Continue {
                    state: OpenState::Navigating,
                    command: Command::Navigate(config.base_url.clone()),
                },
                Some(error) => Step::failed(error),
            },
            OpenState::Navigating => match check_action(&reply, PortalError::Navigation) {
                None => Step::Continue { state: OpenState::Settling, command: Command::AwaitLoad },
                Some(error) => Step::failed(error),
            },
            OpenState::Settling => match check_action(&reply, PortalError::Navigation) {
                None => Step::Finished(Ok(BrowserTab { config: config.duplicate() })),
                Some(error) => Step::failed(error),
            },
        }
    }

    /// One step of a login: `login_next` on the views. A login begins with
    /// `LoginState::Start` and no reply. It ends with a message and whether
    /// the student is logged in, or with the error that stopped it.
    pub fn login(
        &self,
        student_login: &str,
        password: &str,
        state: LoginState,
        reply: Option<Reply>,
    ) -> (step: Step<LoginState, (String, bool)>)
        ensures
            step@ == login_next(self@, student_login@, password@, state, reply_view(reply)),
    {
        match state {
            LoginState::Start => match reply {
                None => Step::Continue { state: LoginState::PreCheck, command: Command::ReadUrl },
                Some(_) => Step::unexpected(),
            },
            LoginState::PreCheck => match reply {
                Some(Reply::Url(url)) => if url == self.config.dashboard_url {
                    Step::Finished(Ok(("Already logged in".to_owned(), true)))
                } else {
                    Step::Continue {
                        state: LoginState::FocusUsername,
                        command: Command::Click(Target::UsernameInput),
                    }
                },
                _ => Step::unexpected(),
            },
            LoginState::FocusUsername => match check_click(&reply, Target::UsernameInput) {
                None => Step::Continue {
                    state: LoginState::TypeUsername,
                    command: Command::Type(student_login.to_owned()),
                },
                Some(error) => Step::failed(error),
            },
            LoginState::TypeUsername => match check_typing(&reply, Credential::StudentLogin) {
                None => Step::Continue {
                    state: LoginState::FocusPassword,
                    command: Command::Click(Target::PasswordInput),
                },
                Some(error) => Step::failed(error),
            },
            LoginState::FocusPassword => match check_click(&reply, Target::PasswordInput) {
                None => Step::Continue {
                    state: LoginState::TypePassword,
                    command: Command::Type(password.to_owned()),
                },
                Some(error) => Step::failed(error),
            },
            LoginState::TypePassword => match check_typing(&reply, Credential::Password) {
                None => Step::Continue {
                    state: LoginState::Submit,
                    command: Command::Click(Target::SubmitButton),
                },
                Some(error) => Step::failed(error),
            },
            LoginState::Submit => match check_click(&reply, Target::SubmitButton) {
                None => login_on_poll(begin(self.config.login_retries)),
                Some(error) => Step::failed(error),
            },
            LoginState::Pausing(remaining) => match reply {
                Some(Reply::Done) => Step::Continue {
                    state: LoginState::Polling(remaining),
                    command: Command::ReadUrl,
                },
                _ => Step::unexpected(),
            },
            LoginState::Polling(remaining) => match reply {
                Some(Reply::Url(url)) => login_on_poll(
                    observe(remaining, &url, &self.config.dashboard_url),
                ),
                _ => Step::unexpected(),
            },
        }
    }
}

} // verus!
