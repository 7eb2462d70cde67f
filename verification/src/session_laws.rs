//! What holds of every launch of a session and of every login, whatever the
//! browser does.

use vstd::prelude::*;
use crate::config::PortalConfigView;
use crate::driver::{CommandView, ReplyView, StepView};
use crate::run::{command_of, issued, resume};
use crate::run::{lemma_finished_stays, lemma_resume_concat, lemma_resume_first};
use crate::error::{PortalError, Target};
use crate::poll::{first_arrival, spec_begin, Poll};
use crate::script::{arrives, lemma_polled_out, lemma_polling, never_arrives};
use crate::script::{poll_commands, poll_script, polls};
use crate::session::{already_logged_in, logged_in, login_failed, login_next, login_poll};
use crate::session::{open_next, LoginState, OpenState};

verus! {

/// The transition function of the launch of a session with these settings.
pub open spec fn open_transition(config: PortalConfigView) -> spec_fn(
    OpenState,
    Option<ReplyView>,
) -> StepView<OpenState, PortalConfigView> {
    |state: OpenState, reply: Option<ReplyView>| open_next(config, state, reply)
}

/// The step a launch begins with.
pub open spec fn open_start(config: PortalConfigView) -> StepView<OpenState, PortalConfigView> {
    open_next(config, OpenState::Start, None)
}

/// Where a launch is after the driver has answered its commands with
/// `replies`.
pub open spec fn open_run(config: PortalConfigView, replies: Seq<ReplyView>) -> StepView<
    OpenState,
    PortalConfigView,
> {
    resume(open_transition(config), open_start(config), replies)
}

/// The commands that a launch has handed the driver by the time the driver
/// has answered with `replies`, in order.
pub open spec fn open_commands(config: PortalConfigView, replies: Seq<ReplyView>) -> Seq<
    CommandView,
> {
    command_of(open_start(config)) + issued(open_transition(config), open_start(config), replies)
}

/// The commands of a launch that goes through.
pub open spec fn launch_commands(config: PortalConfigView) -> Seq<CommandView> {
    seq![
        CommandView::Launch,
        CommandView::OpenTab,
        CommandView::Navigate(config.base_url),
        CommandView::AwaitLoad,
    ]
}

/// The error of a launch whose command with index `failing` fails: a browser
/// that does not start and a tab that does not open are `Launch`, a page
/// that is refused or does not settle is `Navigation`.
pub open spec fn launch_error(failing: int) -> PortalError {
    if failing < 2 {
        PortalError::Launch
    } else {
        PortalError::Navigation
    }
}

/// A launch on which every command goes through gives the session, with the
/// settings it was begun with: the browser was started, a tab opened and
/// sent to the entry page, and the load awaited, and nothing else was asked.
pub proof fn law_open_outcome(config: PortalConfigView)
    ensures
        open_run(
            config,
            seq![ReplyView::Done, ReplyView::Done, ReplyView::Done, ReplyView::Done],
        ) == StepView::<OpenState, PortalConfigView>::Finished(Ok(config)),
        open_commands(
            config,
            seq![ReplyView::Done, ReplyView::Done, ReplyView::Done, ReplyView::Done],
        ) == launch_commands(config),
{
    let transition = open_transition(config);
    let done = ReplyView::Done;
    let r3 = seq![done];
    let r2 = seq![done, done];
    let r1 = seq![done, done, done];
    let r0 = seq![done, done, done, done];
    assert(r0 =~= seq![done] + r1);
    assert(r1 =~= seq![done] + r2);
    assert(r2 =~= seq![done] + r3);
    assert(r3 =~= seq![done] + Seq::<ReplyView>::empty());
    lemma_resume_first(transition, OpenState::Launching, CommandView::Launch, done, r1);
    lemma_resume_first(transition, OpenState::OpeningTab, CommandView::OpenTab, done, r2);
    lemma_resume_first(
        transition,
        OpenState::Navigating,
        CommandView::Navigate(config.base_url),
        done,
        r3,
    );
    lemma_resume_first(
        transition,
        OpenState::Settling,
        CommandView::AwaitLoad,
        done,
        Seq::<ReplyView>::empty(),
    );
    assert(open_commands(config, r0) =~= launch_commands(config));
}

/// A launch stops at the first command that fails, with `Launch` or
/// `Navigation` as `launch_error` says, and gives no session. It has asked
/// for the commands up to the failing one and for nothing after it,
/// whatever the driver would have said next.
pub proof fn law_open_stops_at_first_failure(
    config: PortalConfigView,
    failing: int,
    rest: Seq<ReplyView>,
)
    requires
        0 <= failing < 4,
    ensures
        open_run(
            config,
            Seq::new(failing as nat, |i: int| ReplyView::Done) + seq![ReplyView::Failed] + rest,
        ) == StepView::<OpenState, PortalConfigView>::Finished(Err(launch_error(failing))),
        open_commands(
            config,
            Seq::new(failing as nat, |i: int| ReplyView::Done) + seq![ReplyView::Failed] + rest,
        ) == launch_commands(config).subrange(0, failing + 1),
{
    let transition = open_transition(config);
    let start = open_start(config);
    let done = ReplyView::Done;
    let acknowledged = Seq::new(failing as nat, |i: int| ReplyView::Done);
    let front = acknowledged + seq![ReplyView::Failed];
    let stopped = StepView::<OpenState, PortalConfigView>::Finished(Err(launch_error(failing)));
    let f0 = seq![ReplyView::Failed];
    let f1 = seq![done, ReplyView::Failed];
    let f2 = seq![done, done, ReplyView::Failed];
    let f3 = seq![done, done, done, ReplyView::Failed];
    assert(f0 =~= seq![ReplyView::Failed] + Seq::<ReplyView>::empty());
    assert(f1 =~= seq![done] + f0);
    assert(f2 =~= seq![done] + f1);
    assert(f3 =~= seq![done] + f2);
    if failing == 0 {
        assert(front =~= f0);
        lemma_resume_first(
            transition,
            OpenState::Launching,
            CommandView::Launch,
            ReplyView::Failed,
            Seq::<ReplyView>::empty(),
        );
    } else if failing == 1 {
        assert(front =~= f1);
        lemma_resume_first(transition, OpenState::Launching, CommandView::Launch, done, f0);
        lemma_resume_first(
            transition,
            OpenState::OpeningTab,
            CommandView::OpenTab,
            ReplyView::Failed,
            Seq::<ReplyView>::empty(),
        );
    } else if failing == 2 {
        assert(front =~= f2);
        lemma_resume_first(transition, OpenState::Launching, CommandView::Launch, done, f1);
        lemma_resume_first(transition, OpenState::OpeningTab, CommandView::OpenTab, done, f0);
        lemma_resume_first(
            transition,
            OpenState::Navigating,
            CommandView::Navigate(config.base_url),
            ReplyView::Failed,
            Seq::<ReplyView>::empty(),
        );
    } else {
        assert(front =~= f3);
        lemma_resume_first(transition, OpenState::Launching, CommandView::Launch, done, f2);
        lemma_resume_first(transition, OpenState::OpeningTab, CommandView::OpenTab, done, f1);
        lemma_resume_first(
            transition,
            OpenState::Navigating,
            CommandView::Navigate(config.base_url),
            done,
            f0,
        );
        lemma_resume_first(
            transition,
            OpenState::Settling,
            CommandView::AwaitLoad,
            ReplyView::Failed,
            Seq::<ReplyView>::empty(),
        );
    }
    assert(resume(transition, start, front) == stopped);
    lemma_resume_concat(transition, start, front, rest);
    lemma_finished_stays(transition, stopped, rest);
    assert(command_of(start) + (issued(transition, start, front) + Seq::<CommandView>::empty())
        =~= launch_commands(config).subrange(0, failing + 1));
}

/// The transition function of a login with these settings and credentials.
pub open spec fn login_transition(
    config: PortalConfigView,
    student_login: Seq<char>,
    password: Seq<char>,
) -> spec_fn(LoginState, Option<ReplyView>) -> StepView<LoginState, (Seq<char>, bool)> {
    |state: LoginState, reply: Option<ReplyView>|
        login_next(config, student_login, password, state, reply)
}

/// The step a login begins with.
pub open spec fn login_start(
    config: PortalConfigView,
    student_login: Seq<char>,
    password: Seq<char>,
) -> StepView<LoginState, (Seq<char>, bool)> {
    login_next(config, student_login, password, LoginState::Start, None)
}

/// Where a login is after the driver has answered its commands with
/// `replies`.
pub open spec fn login_run(
    config: PortalConfigView,
    student_login: Seq<char>,
    password: Seq<char>,
    replies: Seq<ReplyView>,
) -> StepView<LoginState, (Seq<char>, bool)> {
    resume(
        login_transition(config, student_login, password),
        login_start(config, student_login, password),
        replies,
    )
}

/// The commands that a login has handed the driver by the time the driver
/// has answered with `replies`, in order.
pub open spec fn login_commands(
    config: PortalConfigView,
    student_login: Seq<char>,
    password: Seq<char>,
    replies: Seq<ReplyView>,
) -> Seq<CommandView> {
    command_of(login_start(config, student_login, password)) + issued(
        login_transition(config, student_login, password),
        login_start(config, student_login, password),
        replies,
    )
}

/// The commands that fill the login form in and send it.
pub open spec fn form_commands(student_login: Seq<char>, password: Seq<char>) -> Seq<CommandView> {
    seq![
        CommandView::Click(Target::UsernameInput),
        CommandView::Type(student_login),
        CommandView::Click(Target::PasswordInput),
        CommandView::Type(password),
        CommandView::Click(Target::SubmitButton),
    ]
}

/// The replies of a driver on which every command of the form goes through.
pub open spec fn form_script() -> Seq<ReplyView> {
    seq![ReplyView::Done, ReplyView::Done, ReplyView::Done, ReplyView::Done, ReplyView::Done]
}

/// The replies of a driver during a login in which the tab is at `first_url`
/// to begin with, every command of the form goes through, and the tab then
/// shows `polled`, one address at each read.
pub open spec fn login_script(first_url: Seq<char>, polled: Seq<Seq<char>>) -> Seq<ReplyView> {
    seq![ReplyView::Url(first_url)] + form_script() + poll_script(polled)
}

/// A tab that is at the dashboard when the login begins is logged in
/// already: the login reads the address, ends with "Already logged in", and
/// has not touched the form, whatever the driver would have said next.
pub proof fn law_login_at_dashboard_skips_form(
    config: PortalConfigView,
    student_login: Seq<char>,
    password: Seq<char>,
    rest: Seq<ReplyView>,
)
    ensures
        login_run(
            config,
            student_login,
            password,
            seq![ReplyView::Url(config.dashboard_url)] + rest,
        ) == StepView::<LoginState, (Seq<char>, bool)>::Finished(Ok(already_logged_in())),
        login_commands(
            config,
            student_login,
            password,
            seq![ReplyView::Url(config.dashboard_url)] + rest,
        ) == seq![CommandView::ReadUrl],
{
    let transition = login_transition(config, student_login, password);
    let done = StepView::<LoginState, (Seq<char>, bool)>::Finished(Ok(already_logged_in()));
    lemma_resume_first(
        transition,
        LoginState::PreCheck,
        CommandView::ReadUrl,
        ReplyView::Url(config.dashboard_url),
        rest,
    );
    lemma_finished_stays(transition, done, rest);
    assert(seq![CommandView::ReadUrl] + (Seq::<CommandView>::empty() + Seq::<
        CommandView,
    >::empty()) =~= seq![CommandView::ReadUrl]);
}

/// A tab that is elsewhere has the form filled in: once its first four
/// commands went through, the login has read the address and then clicked
/// the student login input, typed the login, clicked the password input,
/// typed the password and clicked the submit control, in this order and
/// nothing else, and awaits the reply to that last click.
pub proof fn law_login_elsewhere_fills_form(
    config: PortalConfigView,
    student_login: Seq<char>,
    password: Seq<char>,
    first_url: Seq<char>,
)
    requires
        first_url != config.dashboard_url,
    ensures
        login_run(
            config,
            student_login,
            password,
            seq![ReplyView::Url(first_url)] + form_script().drop_last(),
        ) == (StepView::<LoginState, (Seq<char>, bool)>::Continue {
            state: LoginState::Submit,
            command: CommandView::Click(Target::SubmitButton),
        }),
        login_commands(
            config,
            student_login,
            password,
            seq![ReplyView::Url(first_url)] + form_script().drop_last(),
        ) == seq![CommandView::ReadUrl] + form_commands(student_login, password),
{
    let replies = seq![ReplyView::Url(first_url)] + form_script().drop_last();
    assert(replies =~= seq![
        ReplyView::Url(first_url),
        ReplyView::Done,
        ReplyView::Done,
        ReplyView::Done,
        ReplyView::Done,
    ]);
    lemma_login_form(config, student_login, password, first_url);
    assert(login_commands(config, student_login, password, replies) =~= seq![CommandView::ReadUrl]
        + form_commands(student_login, password));
}

/// The first five replies of a login whose tab is not at the dashboard and
/// whose form commands go through, taken one by one.
proof fn lemma_login_form(
    config: PortalConfigView,
    student_login: Seq<char>,
    password: Seq<char>,
    first_url: Seq<char>,
)
    requires
        first_url != config.dashboard_url,
    ensures
        ({
            let transition = login_transition(config, student_login, password);
            let start = login_start(config, student_login, password);
            let replies = seq![
                ReplyView::Url(first_url),
                ReplyView::Done,
                ReplyView::Done,
                ReplyView::Done,
                ReplyView::Done,
            ];
            &&& resume(transition, start, replies) == (StepView::<
                LoginState,
                (Seq<char>, bool),
            >::Continue {
                state: LoginState::Submit,
                command: CommandView::Click(Target::SubmitButton),
            })
            &&& issued(transition, start, replies) =~= form_commands(student_login, password)
        }),
{
    let transition = login_transition(config, student_login, password);
    let done = ReplyView::Done;
    let r4 = seq![done];
    let r3 = seq![done, done];
    let r2 = seq![done, done, done];
    let r1 = seq![done, done, done, done];
    let r0 = seq![ReplyView::Url(first_url), done, done, done, done];
    assert(r0 =~= seq![ReplyView::Url(first_url)] + r1);
    assert(r1 =~= seq![done] + r2);
    assert(r2 =~= seq![done] + r3);
    assert(r3 =~= seq![done] + r4);
    assert(r4 =~= seq![done] + Seq::<ReplyView>::empty());
    lemma_resume_first(
        transition,
        LoginState::PreCheck,
        CommandView::ReadUrl,
        ReplyView::Url(first_url),
        r1,
    );
    lemma_resume_first(
        transition,
        LoginState::FocusUsername,
        CommandView::Click(Target::UsernameInput),
        done,
        r2,
    );
    lemma_resume_first(
        transition,
        LoginState::TypeUsername,
        CommandView::Type(student_login),
        done,
        r3,
    );
    lemma_resume_first(
        transition,
        LoginState::FocusPassword,
        CommandView::Click(Target::PasswordInput),
        done,
        r4,
    );
    lemma_resume_first(
        transition,
        LoginState::TypePassword,
        CommandView::Type(password),
        done,
        Seq::<ReplyView>::empty(),
    );
}

/// What a login comes to, against a browser that behaves.
///
/// The tab is not at the dashboard to begin with, every command of the form
/// goes through, and `polled` are the addresses of a polling that went to
/// its end. Then the login ends without an error: with "Successfully logged
/// in" and `true` if a read within the budget found the dashboard, with
/// "Failed to login" and `false` if none did. It has read the address once,
/// filled the form in, and then paused and read once for each of `polled`,
/// and asked for nothing else.
pub proof fn law_login_outcome(
    config: PortalConfigView,
    student_login: Seq<char>,
    password: Seq<char>,
    first_url: Seq<char>,
    polled: Seq<Seq<char>>,
)
    requires
        first_url != config.dashboard_url,
        arrives(polled, config.dashboard_url, config.login_retries) || never_arrives(
            polled,
            config.dashboard_url,
            config.login_retries,
        ),
    ensures
        login_run(config, student_login, password, login_script(first_url, polled)) == (
        StepView::<LoginState, (Seq<char>, bool)>::Finished(
            Ok(
                if arrives(polled, config.dashboard_url, config.login_retries) {
                    logged_in()
                } else {
                    login_failed()
                },
            ),
        )),
        login_commands(config, student_login, password, login_script(first_url, polled))
            == seq![CommandView::ReadUrl] + form_commands(student_login, password)
            + poll_commands(polled.len()),
{
    let transition = login_transition(config, student_login, password);
    let start = login_start(config, student_login, password);
    let budget: u32 = config.login_retries;
    let target = config.dashboard_url;
    lemma_polled_out(polled, target, budget);
    let form = seq![
        ReplyView::Url(first_url),
        ReplyView::Done,
        ReplyView::Done,
        ReplyView::Done,
        ReplyView::Done,
    ];
    let script = login_script(first_url, polled);
    let tail = seq![ReplyView::Done] + poll_script(polled);
    assert(script =~= form + tail);
    lemma_login_form(config, student_login, password, first_url);
    lemma_resume_concat(transition, start, form, tail);
    lemma_resume_first(
        transition,
        LoginState::Submit,
        CommandView::Click(Target::SubmitButton),
        ReplyView::Done,
        poll_script(polled),
    );
    let submitted = login_poll(spec_begin(budget));
    assert(transition(LoginState::Submit, Some(ReplyView::Done)) == submitted);
    let end = StepView::<LoginState, (Seq<char>, bool)>::Finished(
        Ok(
            if first_arrival(polled, target, budget as nat) is Some {
                logged_in()
            } else {
                login_failed()
            },
        ),
    );
    if budget == 0 {
        assert(polled.len() == 0);
        assert(resume(transition, submitted, poll_script(polled)) == end);
        assert(command_of(submitted) + issued(transition, submitted, poll_script(polled))
            =~= poll_commands(polled.len()));
    } else {
        let pausing = |remaining: u32| LoginState::Pausing(remaining);
        let polling = |remaining: u32| LoginState::Polling(remaining);
        let arrived = login_poll(Poll::Arrived);
        let exhausted = login_poll(Poll::Exhausted);
        assert(polls(transition, target, pausing, polling, arrived, exhausted));
        lemma_polling(transition, target, pausing, polling, arrived, exhausted, budget, polled);
        assert(command_of(submitted) + issued(transition, submitted, poll_script(polled))
            =~= poll_commands(polled.len()));
    }
    assert(login_commands(config, student_login, password, script) =~= seq![CommandView::ReadUrl]
        + form_commands(student_login, password) + poll_commands(polled.len()));
}

/// However many reads the budget allows: a login whose form went through
/// and whose tab was at the dashboard at none of them ends with "Failed to
/// login" and `false`, as a result and not as an error.
pub proof fn law_login_fails_softly(
    config: PortalConfigView,
    student_login: Seq<char>,
    password: Seq<char>,
    first_url: Seq<char>,
    polled: Seq<Seq<char>>,
)
    requires
        first_url != config.dashboard_url,
        never_arrives(polled, config.dashboard_url, config.login_retries),
    ensures
        login_run(config, student_login, password, login_script(first_url, polled)) == (
        StepView::<LoginState, (Seq<char>, bool)>::Finished(Ok(login_failed()))),
        login_commands(config, student_login, password, login_script(first_url, polled))
            == seq![CommandView::ReadUrl] + form_commands(student_login, password)
            + poll_commands(config.login_retries as nat),
{
    law_login_outcome(config, student_login, password, first_url, polled);
}

/// A login succeeds at the first read that finds the dashboard: it ends with
/// "Successfully logged in" and `true`, after as many pauses as reads.
pub proof fn law_login_succeeds_on_arrival(
    config: PortalConfigView,
    student_login: Seq<char>,
    password: Seq<char>,
    first_url: Seq<char>,
    polled: Seq<Seq<char>>,
)
    requires
        first_url != config.dashboard_url,
        arrives(polled, config.dashboard_url, config.login_retries),
    ensures
        login_run(config, student_login, password, login_script(first_url, polled)) == (
        StepView::<LoginState, (Seq<char>, bool)>::Finished(Ok(logged_in()))),
        login_commands(config, student_login, password, login_script(first_url, polled))
            == seq![CommandView::ReadUrl] + form_commands(student_login, password)
            + poll_commands(polled.len()),
{
    law_login_outcome(config, student_login, password, first_url, polled);
}

/// A form element that is not located stops the login with
/// `ElementNotFound`, an error and no result, and nothing more is asked of
/// the driver.
pub proof fn law_login_missing_element_is_hard(
    config: PortalConfigView,
    student_login: Seq<char>,
    password: Seq<char>,
    state: LoginState,
    rest: Seq<ReplyView>,
)
    requires
        state == LoginState::FocusUsername || state == LoginState::FocusPassword || state
            == LoginState::Submit,
    ensures
        ({
            let transition = login_transition(config, student_login, password);
            let target = match state {
                LoginState::FocusUsername => Target::UsernameInput,
                LoginState::FocusPassword => Target::PasswordInput,
                _ => Target::SubmitButton,
            };
            let waiting = StepView::<LoginState, (Seq<char>, bool)>::Continue {
                state,
                command: CommandView::Click(target),
            };
            &&& resume(transition, waiting, seq![ReplyView::NotFound] + rest) == StepView::<
                LoginState,
                (Seq<char>, bool),
            >::Finished(Err(PortalError::ElementNotFound(target)))
            &&& issued(transition, waiting, seq![ReplyView::NotFound] + rest) == Seq::<
                CommandView,
            >::empty()
        }),
{
    let transition = login_transition(config, student_login, password);
    let target = match state {
        LoginState::FocusUsername => Target::UsernameInput,
        LoginState::FocusPassword => Target::PasswordInput,
        _ => Target::SubmitButton,
    };
    lemma_resume_first(transition, state, CommandView::Click(target), ReplyView::NotFound, rest);
    let stopped = transition(state, Some(ReplyView::NotFound));
    lemma_finished_stays(transition, stopped, rest);
    assert(Seq::<CommandView>::empty() + Seq::<CommandView>::empty() =~= Seq::<
        CommandView,
    >::empty());
}

} // verus!
