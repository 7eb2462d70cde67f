use student_portal::config::{PortalConfig, LOGIN_RETRIES};
use student_portal::driver::{Command, Reply, Step, POLL_INTERVAL_SECS};
use student_portal::error::{Credential, PortalError, Target};
use student_portal::session::{BrowserTab, LoginState, OpenState};

const BASE: &str = "https://portal.test/";
const DASHBOARD: &str = "https://portal.test/dashboard";
const PROFILE: &str = "https://portal.test/profile";

/// A browser tab as a login sees it. It shows `first_url` until the form is
/// sent, and after that `polled`, one address at each read and the last one
/// for good. The elements in `missing` are not found, those in `stuck` fail
/// on a click, and the texts in `untyped` fail to be typed.
struct MockTab {
    first_url: String,
    polled: Vec<String>,
    missing: Vec<Target>,
    stuck: Vec<Target>,
    untyped: Vec<String>,
    submitted: bool,
    reads_after_submit: usize,
    sleeps: usize,
    log: Vec<Command>,
}

impl MockTab {
    fn new(first_url: &str, polled: &[&str]) -> Self {
        MockTab {
            first_url: first_url.to_string(),
            polled: polled.iter().map(|url| url.to_string()).collect(),
            missing: Vec::new(),
            stuck: Vec::new(),
            untyped: Vec::new(),
            submitted: false,
            reads_after_submit: 0,
            sleeps: 0,
            log: Vec::new(),
        }
    }

    fn url(&mut self) -> String {
        if !self.submitted {
            return self.first_url.clone();
        }
        let index = self.reads_after_submit.min(self.polled.len().saturating_sub(1));
        self.reads_after_submit += 1;
        match self.polled.get(index) {
            Some(url) => url.clone(),
            None => self.first_url.clone(),
        }
    }

    fn perform(&mut self, command: Command) -> Reply {
        let reply = match &command {
            Command::ReadUrl => Reply::Url(self.url()),
            Command::Sleep(_) => {
                self.sleeps += 1;
                Reply::Done
            }
            Command::Click(target) => {
                if self.missing.contains(target) {
                    Reply::NotFound
                } else if self.stuck.contains(target) {
                    Reply::Failed
                } else {
                    if *target == Target::SubmitButton {
                        self.submitted = true;
                    }
                    Reply::Done
                }
            }
            Command::Type(text) => {
                if self.untyped.contains(text) {
                    Reply::Failed
                } else {
                    Reply::Done
                }
            }
            _ => Reply::Failed,
        };
        self.log.push(command);
        reply
    }
}

fn config_with_budget(login_retries: u32) -> PortalConfig {
    let mut config = PortalConfig::new(BASE.to_string(), DASHBOARD.to_string(), PROFILE.to_string());
    config.login_retries = login_retries;
    config
}

fn open(config: &PortalConfig) -> BrowserTab {
    let mut step = BrowserTab::new(config, OpenState::Start, None);
    loop {
        match step {
            Step::Continue { state, .. } => step = BrowserTab::new(config, state, Some(Reply::Done)),
            Step::Finished(result) => return result.expect("the launch goes through"),
        }
    }
}

fn run_login(
    tab: &BrowserTab,
    mock: &mut MockTab,
    student_login: &str,
    password: &str,
) -> Result<(String, bool), PortalError> {
    let mut step = tab.login(student_login, password, LoginState::Start, None);
    loop {
        match step {
            Step::Continue { state, command } => {
                let reply = mock.perform(command);
                step = tab.login(student_login, password, state, Some(reply));
            }
            Step::Finished(result) => return result,
        }
    }
}

fn form_commands(student_login: &str, password: &str) -> Vec<Command> {
    vec![
        Command::Click(Target::UsernameInput),
        Command::Type(student_login.to_string()),
        Command::Click(Target::PasswordInput),
        Command::Type(password.to_string()),
        Command::Click(Target::SubmitButton),
    ]
}

fn poll_commands(reads: usize) -> Vec<Command> {
    let mut commands = Vec::new();
    for _ in 0..reads {
        commands.push(Command::Sleep(POLL_INTERVAL_SECS));
        commands.push(Command::ReadUrl);
    }
    commands
}

#[test]
fn login_succeeds_when_dashboard_follows_submit() {
    let tab = open(&config_with_budget(LOGIN_RETRIES));
    let mut mock = MockTab::new(BASE, &[DASHBOARD]);
    let result = run_login(&tab, &mut mock, "test", "test");
    assert_eq!(result, Ok(("Successfully logged in".to_string(), true)));
    assert_eq!(mock.sleeps, 1);
    assert_eq!(mock.reads_after_submit, 1);
}

#[test]
fn login_at_dashboard_touches_no_form() {
    let tab = open(&config_with_budget(LOGIN_RETRIES));
    let mut mock = MockTab::new(DASHBOARD, &[]);
    let result = run_login(&tab, &mut mock, "test", "test");
    assert_eq!(result, Ok(("Already logged in".to_string(), true)));
    assert_eq!(mock.log, vec![Command::ReadUrl]);
    assert_eq!(mock.sleeps, 0);
    assert!(!mock.submitted);
}

#[test]
fn login_elsewhere_fills_the_form_in_order() {
    let tab = open(&config_with_budget(LOGIN_RETRIES));
    let mut mock = MockTab::new(BASE, &[DASHBOARD]);
    let result = run_login(&tab, &mut mock, "s1234", "hunter2");
    assert_eq!(result, Ok(("Successfully logged in".to_string(), true)));
    let mut expected = vec![Command::ReadUrl];
    expected.extend(form_commands("s1234", "hunter2"));
    expected.extend(poll_commands(1));
    assert_eq!(mock.log, expected);
}

#[test]
fn login_types_each_text_into_its_own_field() {
    let tab = open(&config_with_budget(LOGIN_RETRIES));
    let mut mock = MockTab::new(BASE, &[DASHBOARD]);
    let _ = run_login(&tab, &mut mock, "the login", "the password");
    assert_eq!(mock.log[1], Command::Click(Target::UsernameInput));
    assert_eq!(mock.log[2], Command::Type("the login".to_string()));
    assert_eq!(mock.log[3], Command::Click(Target::PasswordInput));
    assert_eq!(mock.log[4], Command::Type("the password".to_string()));
    assert_ne!(mock.log[2], mock.log[4]);
}

#[test]
fn login_never_at_dashboard_fails_softly() {
    let tab = open(&config_with_budget(LOGIN_RETRIES));
    let mut mock = MockTab::new(BASE, &[BASE]);
    let result = run_login(&tab, &mut mock, "test", "test");
    assert_eq!(result, Ok(("Failed to login".to_string(), false)));
    assert_eq!(mock.sleeps, 15);
    assert_eq!(mock.reads_after_submit, 15);
    let mut expected = vec![Command::ReadUrl];
    expected.extend(form_commands("test", "test"));
    expected.extend(poll_commands(15));
    assert_eq!(mock.log, expected);
}

#[test]
fn login_fails_softly_for_every_budget() {
    for budget in 0..=20u32 {
        let tab = open(&config_with_budget(budget));
        let mut mock = MockTab::new(BASE, &[BASE]);
        let result = run_login(&tab, &mut mock, "test", "test");
        assert_eq!(result, Ok(("Failed to login".to_string(), false)));
        assert_eq!(mock.sleeps, budget as usize);
        assert_eq!(mock.reads_after_submit, budget as usize);
    }
}

#[test]
fn login_with_no_budget_does_not_poll() {
    let tab = open(&config_with_budget(0));
    let mut mock = MockTab::new(BASE, &[DASHBOARD]);
    let result = run_login(&tab, &mut mock, "test", "test");
    assert_eq!(result, Ok(("Failed to login".to_string(), false)));
    assert_eq!(mock.sleeps, 0);
    let mut expected = vec![Command::ReadUrl];
    expected.extend(form_commands("test", "test"));
    assert_eq!(mock.log, expected);
}

#[test]
fn login_succeeds_on_a_later_poll() {
    let tab = open(&config_with_budget(LOGIN_RETRIES));
    let mut mock = MockTab::new(BASE, &[BASE, BASE, BASE, DASHBOARD]);
    let result = run_login(&tab, &mut mock, "test", "test");
    assert_eq!(result, Ok(("Successfully logged in".to_string(), true)));
    assert_eq!(mock.sleeps, 4);
    assert_eq!(mock.reads_after_submit, 4);
}

#[test]
fn login_succeeds_on_the_last_poll_of_the_budget() {
    let tab = open(&config_with_budget(3));
    let mut mock = MockTab::new(BASE, &[BASE, BASE, DASHBOARD]);
    let result = run_login(&tab, &mut mock, "test", "test");
    assert_eq!(result, Ok(("Successfully logged in".to_string(), true)));
    assert_eq!(mock.sleeps, 3);
}

#[test]
fn login_misses_an_arrival_after_the_budget() {
    let tab = open(&config_with_budget(3));
    let mut mock = MockTab::new(BASE, &[BASE, BASE, BASE, DASHBOARD]);
    let result = run_login(&tab, &mut mock, "test", "test");
    assert_eq!(result, Ok(("Failed to login".to_string(), false)));
    assert_eq!(mock.sleeps, 3);
}

#[test]
fn login_pauses_for_one_second() {
    assert_eq!(POLL_INTERVAL_SECS, 1);
    let tab = open(&config_with_budget(LOGIN_RETRIES));
    let step = tab.login("test", "test", LoginState::Submit, Some(Reply::Done));
    assert_eq!(
        step,
        Step::Continue { state: LoginState::Pausing(15), command: Command::Sleep(1) }
    );
}

#[test]
fn login_counts_the_polls_down() {
    let tab = open(&config_with_budget(LOGIN_RETRIES));
    let step = tab.login("test", "test", LoginState::Pausing(7), Some(Reply::Done));
    assert_eq!(step, Step::Continue { state: LoginState::Polling(7), command: Command::ReadUrl });
    let step = tab.login("test", "test", LoginState::Polling(7), Some(Reply::Url(BASE.to_string())));
    assert_eq!(
        step,
        Step::Continue { state: LoginState::Pausing(6), command: Command::Sleep(1) }
    );
    let step = tab.login("test", "test", LoginState::Polling(1), Some(Reply::Url(BASE.to_string())));
    assert_eq!(step, Step::Finished(Ok(("Failed to login".to_string(), false))));
    let step =
        tab.login("test", "test", LoginState::Polling(1), Some(Reply::Url(DASHBOARD.to_string())));
    assert_eq!(step, Step::Finished(Ok(("Successfully logged in".to_string(), true))));
}

#[test]
fn login_compares_the_whole_address() {
    let tab = open(&config_with_budget(LOGIN_RETRIES));
    let longer = format!("{}/", DASHBOARD);
    let mut mock = MockTab::new(&longer, &[&longer]);
    let result = run_login(&tab, &mut mock, "test", "test");
    assert_eq!(result, Ok(("Failed to login".to_string(), false)));
    assert!(mock.submitted);
}

#[test]
fn login_without_username_input_is_a_hard_error() {
    let tab = open(&config_with_budget(LOGIN_RETRIES));
    let mut mock = MockTab::new(BASE, &[DASHBOARD]);
    mock.missing.push(Target::UsernameInput);
    let result = run_login(&tab, &mut mock, "test", "test");
    assert_eq!(result, Err(PortalError::ElementNotFound(Target::UsernameInput)));
    assert_eq!(mock.log, vec![Command::ReadUrl, Command::Click(Target::UsernameInput)]);
    assert_eq!(result.unwrap_err().message(), "Failed to find student login input");
}

#[test]
fn login_without_password_input_is_a_hard_error() {
    let tab = open(&config_with_budget(LOGIN_RETRIES));
    let mut mock = MockTab::new(BASE, &[DASHBOARD]);
    mock.missing.push(Target::PasswordInput);
    let result = run_login(&tab, &mut mock, "test", "test");
    assert_eq!(result, Err(PortalError::ElementNotFound(Target::PasswordInput)));
    assert_eq!(mock.log.len(), 4);
    assert_eq!(result.unwrap_err().message(), "Failed to find password input");
}

#[test]
fn login_without_submit_control_is_a_hard_error() {
    let tab = open(&config_with_budget(LOGIN_RETRIES));
    let mut mock = MockTab::new(BASE, &[DASHBOARD]);
    mock.missing.push(Target::SubmitButton);
    let result = run_login(&tab, &mut mock, "test", "test");
    assert_eq!(result, Err(PortalError::ElementNotFound(Target::SubmitButton)));
    assert_eq!(mock.sleeps, 0);
    assert_eq!(result.unwrap_err().message(), "Failed to find submit button");
}

#[test]
fn login_reports_a_failed_click() {
    let tab = open(&config_with_budget(LOGIN_RETRIES));
    let mut mock = MockTab::new(BASE, &[DASHBOARD]);
    mock.stuck.push(Target::UsernameInput);
    let result = run_login(&tab, &mut mock, "test", "test");
    assert_eq!(result, Err(PortalError::ClickFailed(Target::UsernameInput)));
    assert_eq!(result.unwrap_err().message(), "Failed to click on student login input");

    let mut mock = MockTab::new(BASE, &[DASHBOARD]);
    mock.stuck.push(Target::PasswordInput);
    let result = run_login(&tab, &mut mock, "test", "test");
    assert_eq!(result, Err(PortalError::ClickFailed(Target::PasswordInput)));
    assert_eq!(result.unwrap_err().message(), "Failed to click on password input");
}

#[test]
fn login_reports_failed_typing() {
    let tab = open(&config_with_budget(LOGIN_RETRIES));
    let mut mock = MockTab::new(BASE, &[DASHBOARD]);
    mock.untyped.push("student".to_string());
    let result = run_login(&tab, &mut mock, "student", "secret");
    assert_eq!(result, Err(PortalError::TypeFailed(Credential::StudentLogin)));
    assert_eq!(result.unwrap_err().message(), "Failed to type student login");

    let mut mock = MockTab::new(BASE, &[DASHBOARD]);
    mock.untyped.push("secret".to_string());
    let result = run_login(&tab, &mut mock, "student", "secret");
    assert_eq!(result, Err(PortalError::TypeFailed(Credential::Password)));
    assert_eq!(result.unwrap_err().message(), "Failed to type password");
}

#[test]
fn login_rejects_a_reply_that_does_not_fit() {
    let tab = open(&config_with_budget(LOGIN_RETRIES));
    let unexpected: Step<LoginState, (String, bool)> =
        Step::Finished(Err(PortalError::UnexpectedReply));
    assert_eq!(tab.login("a", "b", LoginState::Start, Some(Reply::Done)), unexpected);
    assert_eq!(tab.login("a", "b", LoginState::PreCheck, None), unexpected);
    assert_eq!(tab.login("a", "b", LoginState::PreCheck, Some(Reply::Done)), unexpected);
    assert_eq!(
        tab.login("a", "b", LoginState::FocusUsername, Some(Reply::Url(BASE.to_string()))),
        unexpected
    );
    assert_eq!(tab.login("a", "b", LoginState::TypeUsername, Some(Reply::NotFound)), unexpected);
    assert_eq!(tab.login("a", "b", LoginState::Pausing(3), Some(Reply::Failed)), unexpected);
    assert_eq!(tab.login("a", "b", LoginState::Polling(3), Some(Reply::Count(1))), unexpected);
    assert_eq!(PortalError::UnexpectedReply.message(), "Unexpected reply from the browser driver");
}

#[test]
fn login_begins_by_reading_the_address() {
    let tab = open(&config_with_budget(LOGIN_RETRIES));
    let step = tab.login("test", "test", LoginState::Start, None);
    assert_eq!(step, Step::Continue { state: LoginState::PreCheck, command: Command::ReadUrl });
}

#[test]
fn session_opens_on_the_entry_page() {
    let config = config_with_budget(LOGIN_RETRIES);
    let mut log = Vec::new();
    let mut step = BrowserTab::new(&config, OpenState::Start, None);
    let tab = loop {
        match step {
            Step::Continue { state, command } => {
                log.push(command);
                step = BrowserTab::new(&config, state, Some(Reply::Done));
            }
            Step::Finished(result) => break result.unwrap(),
        }
    };
    assert_eq!(
        log,
        vec![
            Command::Launch,
            Command::OpenTab,
            Command::Navigate(BASE.to_string()),
            Command::AwaitLoad,
        ]
    );
    assert_eq!(tab.config(), &config);
}

#[test]
fn session_reports_a_browser_that_does_not_start() {
    let config = config_with_budget(LOGIN_RETRIES);
    let step = BrowserTab::new(&config, OpenState::Launching, Some(Reply::Failed));
    assert_eq!(step, Step::Finished(Err(PortalError::Launch)));
    let step = BrowserTab::new(&config, OpenState::OpeningTab, Some(Reply::Failed));
    assert_eq!(step, Step::Finished(Err(PortalError::Launch)));
    assert_eq!(PortalError::Launch.message(), "Failed to launch the browser");
}

#[test]
fn session_reports_an_entry_page_that_does_not_load() {
    let config = config_with_budget(LOGIN_RETRIES);
    let step = BrowserTab::new(&config, OpenState::Navigating, Some(Reply::Failed));
    assert_eq!(step, Step::Finished(Err(PortalError::Navigation)));
    let step = BrowserTab::new(&config, OpenState::Settling, Some(Reply::Failed));
    assert_eq!(step, Step::Finished(Err(PortalError::Navigation)));
    assert_eq!(PortalError::Navigation.message(), "Failed to load the page");
}

#[test]
fn session_rejects_a_reply_that_does_not_fit() {
    let config = config_with_budget(LOGIN_RETRIES);
    let unexpected: Step<OpenState, BrowserTab> = Step::Finished(Err(PortalError::UnexpectedReply));
    assert_eq!(BrowserTab::new(&config, OpenState::Start, Some(Reply::Done)), unexpected);
    assert_eq!(BrowserTab::new(&config, OpenState::Launching, None), unexpected);
    assert_eq!(BrowserTab::new(&config, OpenState::Settling, Some(Reply::NotFound)), unexpected);
}
