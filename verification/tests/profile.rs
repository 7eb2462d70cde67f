use student_portal::config::{PortalConfig, PROFILE_RETRIES};
use student_portal::driver::{Command, Reply, Step, POLL_INTERVAL_SECS};
use student_portal::error::{PortalError, Target};
use student_portal::profile::{ProfileData, ProfilePhase, ProfileState, REPORTED_FIELDS};
use student_portal::session::{BrowserTab, OpenState};
use student_portal::table::fields_of;

const BASE: &str = "https://portal.test/";
const DASHBOARD: &str = "https://portal.test/dashboard";
const PROFILE: &str = "https://portal.test/profile";

/// What the first image of a page is like.
enum Image {
    Absent,
    WithoutSource,
    WithSource(&'static str),
}

/// A browser as the profile workflow sees it. The new tab shows `polled`,
/// one address at each read and the last one for good, and then a page with
/// that image, that address panel and those table rows. A command equal to
/// `broken` fails.
struct MockBrowser {
    polled: Vec<String>,
    image: Image,
    address: Option<&'static str>,
    rows: Vec<Vec<&'static str>>,
    broken: Option<Command>,
    reads: usize,
    sleeps: usize,
    log: Vec<Command>,
}

impl MockBrowser {
    fn showing(rows: Vec<Vec<&'static str>>) -> Self {
        MockBrowser {
            polled: vec![PROFILE.to_string()],
            image: Image::WithSource("/img/student.png"),
            address: Some("12 Elm Street"),
            rows,
            broken: None,
            reads: 0,
            sleeps: 0,
            log: Vec::new(),
        }
    }

    fn perform(&mut self, command: Command) -> Reply {
        let reply = if self.broken.as_ref() == Some(&command) {
            Reply::Failed
        } else {
            match &command {
                Command::OpenTab | Command::Navigate(_) => Reply::Done,
                Command::Sleep(_) => {
                    self.sleeps += 1;
                    Reply::Done
                }
                Command::ReadUrl => {
                    let index = self.reads.min(self.polled.len() - 1);
                    self.reads += 1;
                    Reply::Url(self.polled[index].clone())
                }
                Command::ReadSource(Target::ProfileImage) => match self.image {
                    Image::Absent => Reply::NotFound,
                    Image::WithoutSource => Reply::Attribute(None),
                    Image::WithSource(source) => Reply::Attribute(Some(source.to_string())),
                },
                Command::ReadText(Target::AddressPanel) => match self.address {
                    Some(text) => Reply::Text(text.to_string()),
                    None => Reply::NotFound,
                },
                Command::CountRows => {
                    if self.rows.is_empty() {
                        Reply::NotFound
                    } else {
                        Reply::Count(self.rows.len())
                    }
                }
                Command::CountCells(row) => Reply::Count(self.rows[*row].len()),
                Command::ReadCell(row, cell) => Reply::Text(self.rows[*row][*cell].to_string()),
                _ => Reply::Failed,
            }
        };
        self.log.push(command);
        reply
    }
}

fn config_with_budget(profile_retries: u32) -> PortalConfig {
    let mut config = PortalConfig::new(BASE.to_string(), DASHBOARD.to_string(), PROFILE.to_string());
    config.profile_retries = profile_retries;
    config
}

fn open(config: &PortalConfig) -> BrowserTab {
    let mut step = BrowserTab::new(config, OpenState::Start, None);
    loop {
        match step {
            Step::Continue { state, .. } => step = BrowserTab::new(config, state, Some(Reply::Done)),
            Step::Finished(result) => return result.expect("the launch goes through"),
        }
    }
}

fn run_profile(tab: &BrowserTab, mock: &mut MockBrowser) -> Result<ProfileData, PortalError> {
    let mut step = tab.get_profile_info(ProfileState::start(), None);
    loop {
        match step {
            Step::Continue { state, command } => {
                let reply = mock.perform(command);
                step = tab.get_profile_info(state, Some(reply));
            }
            Step::Finished(result) => return result,
        }
    }
}

fn fetch(mock: &mut MockBrowser) -> Result<ProfileData, PortalError> {
    run_profile(&open(&config_with_budget(PROFILE_RETRIES)), mock)
}

fn texts(fields: &[&str]) -> Vec<String> {
    fields.iter().map(|field| field.to_string()).collect()
}

#[test]
fn fields_are_the_last_cells_of_rows_with_cells() {
    let mut mock = MockBrowser::showing(vec![vec!["a", "b"], vec!["c"], vec![]]);
    let data = fetch(&mut mock).unwrap();
    assert_eq!(data.student_info(), &texts(&["b", "c"]));
}

#[test]
fn profile_page_never_reached_times_out() {
    let mut mock = MockBrowser::showing(vec![vec!["a", "b"]]);
    mock.polled = vec![DASHBOARD.to_string()];
    let result = fetch(&mut mock);
    assert_eq!(result, Err(PortalError::NavigationTimeout));
    assert_eq!(mock.sleeps, 10);
    assert_eq!(mock.reads, 10);
    let mut expected = vec![Command::OpenTab, Command::Navigate(PROFILE.to_string())];
    for _ in 0..10 {
        expected.push(Command::Sleep(POLL_INTERVAL_SECS));
        expected.push(Command::ReadUrl);
    }
    assert_eq!(mock.log, expected);
    assert_eq!(result.unwrap_err().message(), "Failed to navigate to profile page");
}

#[test]
fn profile_times_out_for_every_budget() {
    for budget in 0..=12u32 {
        let tab = open(&config_with_budget(budget));
        let mut mock = MockBrowser::showing(vec![vec!["a"]]);
        mock.polled = vec![BASE.to_string()];
        assert_eq!(run_profile(&tab, &mut mock), Err(PortalError::NavigationTimeout));
        assert_eq!(mock.sleeps, budget as usize);
        assert_eq!(mock.reads, budget as usize);
    }
}

#[test]
fn profile_page_reached_on_a_later_poll() {
    let mut mock = MockBrowser::showing(vec![vec!["x"]]);
    mock.polled = texts(&[BASE, BASE, PROFILE]);
    let data = fetch(&mut mock).unwrap();
    assert_eq!(mock.sleeps, 3);
    assert_eq!(mock.reads, 3);
    assert_eq!(data.student_info(), &texts(&["x"]));
}

#[test]
fn profile_page_reached_on_the_last_poll_of_the_budget() {
    let tab = open(&config_with_budget(2));
    let mut mock = MockBrowser::showing(vec![vec!["x"]]);
    mock.polled = texts(&[BASE, PROFILE]);
    assert!(run_profile(&tab, &mut mock).is_ok());
    let mut mock = MockBrowser::showing(vec![vec!["x"]]);
    mock.polled = texts(&[BASE, BASE, PROFILE]);
    assert_eq!(run_profile(&tab, &mut mock), Err(PortalError::NavigationTimeout));
}

#[test]
fn profile_holds_what_the_page_shows() {
    let mut mock = MockBrowser::showing(vec![vec!["Name", "Ada"], vec!["Year", "2"]]);
    let data = fetch(&mut mock).unwrap();
    assert_eq!(data.profile_img(), "/img/student.png");
    assert_eq!(data.address(), "12 Elm Street");
    assert_eq!(data.student_info(), &texts(&["Ada", "2"]));
}

#[test]
fn profile_image_without_source_gives_empty_text() {
    let mut mock = MockBrowser::showing(vec![vec!["a", "b"]]);
    mock.image = Image::WithoutSource;
    let data = fetch(&mut mock).unwrap();
    assert_eq!(data.profile_img(), "");
    assert_eq!(data.address(), "12 Elm Street");
    assert_eq!(data.student_info(), &texts(&["b"]));
}

#[test]
fn profile_without_image_is_a_hard_error() {
    let mut mock = MockBrowser::showing(vec![vec!["a", "b"]]);
    mock.image = Image::Absent;
    let result = fetch(&mut mock);
    assert_eq!(result, Err(PortalError::ElementNotFound(Target::ProfileImage)));
    assert_eq!(result.unwrap_err().message(), "Failed to find profile image");
}

#[test]
fn profile_without_address_panel_is_a_hard_error() {
    let mut mock = MockBrowser::showing(vec![vec!["a", "b"]]);
    mock.address = None;
    let result = fetch(&mut mock);
    assert_eq!(result, Err(PortalError::ElementNotFound(Target::AddressPanel)));
    assert_eq!(mock.log.last(), Some(&Command::ReadText(Target::AddressPanel)));
    assert_eq!(result.unwrap_err().message(), "Failed to find address panel");
}

#[test]
fn profile_without_rows_is_an_empty_result() {
    let mut mock = MockBrowser::showing(vec![]);
    let result = fetch(&mut mock);
    assert_eq!(result, Err(PortalError::EmptyResult));
    assert_eq!(mock.log.last(), Some(&Command::CountRows));
    assert_eq!(result.unwrap_err().message(), "Student info not found.");
}

#[test]
fn profile_with_only_empty_rows_is_an_empty_result() {
    let mut mock = MockBrowser::showing(vec![vec![], vec![], vec![]]);
    assert_eq!(fetch(&mut mock), Err(PortalError::EmptyResult));
    assert_eq!(mock.log.last(), Some(&Command::CountCells(2)));
}

#[test]
fn profile_with_zero_counted_rows_is_an_empty_result() {
    let tab = open(&config_with_budget(PROFILE_RETRIES));
    let mut step = tab.get_profile_info(ProfileState::start(), None);
    let replies = vec![
        Reply::Done,
        Reply::Done,
        Reply::Done,
        Reply::Url(PROFILE.to_string()),
        Reply::Attribute(None),
        Reply::Text("somewhere".to_string()),
        Reply::Count(0),
    ];
    for reply in replies {
        step = match step {
            Step::Continue { state, .. } => tab.get_profile_info(state, Some(reply)),
            Step::Finished(_) => panic!("the workflow ended early"),
        };
    }
    assert_eq!(step, Step::Finished(Err(PortalError::EmptyResult)));
}

#[test]
fn profile_reads_only_the_last_cell_of_each_row() {
    let mut mock =
        MockBrowser::showing(vec![vec!["a", "b", "c"], vec![], vec!["d"], vec!["e", "f"]]);
    let data = fetch(&mut mock).unwrap();
    assert_eq!(data.student_info(), &texts(&["c", "d", "f"]));
    let page: Vec<&Command> = mock.log.iter().skip(4).collect();
    assert_eq!(
        page,
        vec![
            &Command::ReadSource(Target::ProfileImage),
            &Command::ReadText(Target::AddressPanel),
            &Command::CountRows,
            &Command::CountCells(0),
            &Command::ReadCell(0, 2),
            &Command::CountCells(1),
            &Command::CountCells(2),
            &Command::ReadCell(2, 0),
            &Command::CountCells(3),
            &Command::ReadCell(3, 1),
        ]
    );
}

#[test]
fn profile_keeps_the_order_of_the_rows() {
    let mut mock = MockBrowser::showing(vec![
        vec!["9"],
        vec!["k", "8"],
        vec![],
        vec!["k", "k", "7"],
        vec!["6"],
        vec![],
        vec!["5"],
    ]);
    let data = fetch(&mut mock).unwrap();
    assert_eq!(data.student_info(), &texts(&["9", "8", "7", "6", "5"]));
}

#[test]
fn profile_keeps_equal_and_empty_texts() {
    let mut mock = MockBrowser::showing(vec![vec!["x", ""], vec!["same"], vec!["same"]]);
    let data = fetch(&mut mock).unwrap();
    assert_eq!(data.student_info(), &texts(&["", "same", "same"]));
}

#[test]
fn profile_opens_a_tab_of_its_own() {
    let tab = open(&config_with_budget(PROFILE_RETRIES));
    let step = tab.get_profile_info(ProfileState::start(), None);
    let state = match step {
        Step::Continue { state, command } => {
            assert_eq!(command, Command::OpenTab);
            assert_eq!(state.phase(), ProfilePhase::OpeningTab);
            state
        }
        Step::Finished(_) => panic!("the workflow ended early"),
    };
    match tab.get_profile_info(state, Some(Reply::Done)) {
        Step::Continue { state, command } => {
            assert_eq!(command, Command::Navigate(PROFILE.to_string()));
            assert_eq!(state.phase(), ProfilePhase::Navigating);
        }
        Step::Finished(_) => panic!("the workflow ended early"),
    }
}

#[test]
fn profile_budget_is_ten_polls() {
    assert_eq!(PROFILE_RETRIES, 10);
    let tab = open(&config_with_budget(PROFILE_RETRIES));
    let mut step = tab.get_profile_info(ProfileState::start(), None);
    for _ in 0..2 {
        step = match step {
            Step::Continue { state, .. } => tab.get_profile_info(state, Some(Reply::Done)),
            Step::Finished(_) => panic!("the workflow ended early"),
        };
    }
    match step {
        Step::Continue { state, command } => {
            assert_eq!(command, Command::Sleep(1));
            assert_eq!(state.phase(), ProfilePhase::Pausing(10));
        }
        Step::Finished(_) => panic!("the workflow ended early"),
    }
}

#[test]
fn profile_reports_a_tab_that_does_not_open() {
    let mut mock = MockBrowser::showing(vec![vec!["a"]]);
    mock.broken = Some(Command::OpenTab);
    assert_eq!(fetch(&mut mock), Err(PortalError::Launch));
    assert_eq!(mock.log, vec![Command::OpenTab]);
}

#[test]
fn profile_reports_a_navigation_that_is_refused() {
    let mut mock = MockBrowser::showing(vec![vec!["a"]]);
    mock.broken = Some(Command::Navigate(PROFILE.to_string()));
    assert_eq!(fetch(&mut mock), Err(PortalError::Navigation));
    assert_eq!(mock.sleeps, 0);
}

#[test]
fn profile_reports_a_failed_read() {
    let mut mock = MockBrowser::showing(vec![vec!["a"]]);
    mock.broken = Some(Command::ReadSource(Target::ProfileImage));
    assert_eq!(fetch(&mut mock), Err(PortalError::ReadFailed(Target::ProfileImage)));

    let mut mock = MockBrowser::showing(vec![vec!["a"]]);
    mock.broken = Some(Command::ReadText(Target::AddressPanel));
    assert_eq!(fetch(&mut mock), Err(PortalError::ReadFailed(Target::AddressPanel)));

    let mut mock = MockBrowser::showing(vec![vec!["a"]]);
    mock.broken = Some(Command::CountRows);
    assert_eq!(fetch(&mut mock), Err(PortalError::ReadFailed(Target::TableRow)));

    let mut mock = MockBrowser::showing(vec![vec!["a"], vec!["b"]]);
    mock.broken = Some(Command::CountCells(1));
    assert_eq!(fetch(&mut mock), Err(PortalError::ReadFailed(Target::TableCell)));

    let mut mock = MockBrowser::showing(vec![vec!["a"], vec!["b", "c"]]);
    mock.broken = Some(Command::ReadCell(1, 1));
    let result = fetch(&mut mock);
    assert_eq!(result, Err(PortalError::ReadFailed(Target::TableCell)));
    assert_eq!(result.unwrap_err().message(), "Failed to read table cell");
}

#[test]
fn profile_skips_a_row_whose_cells_are_not_found() {
    let tab = open(&config_with_budget(PROFILE_RETRIES));
    let mut step = tab.get_profile_info(ProfileState::start(), None);
    let replies = vec![
        Reply::Done,
        Reply::Done,
        Reply::Done,
        Reply::Url(PROFILE.to_string()),
        Reply::Attribute(Some("pic".to_string())),
        Reply::Text("somewhere".to_string()),
        Reply::Count(2),
        Reply::NotFound,
        Reply::Count(1),
        Reply::Text("kept".to_string()),
    ];
    for reply in replies {
        step = match step {
            Step::Continue { state, .. } => tab.get_profile_info(state, Some(reply)),
            Step::Finished(_) => panic!("the workflow ended early"),
        };
    }
    match step {
        Step::Finished(Ok(data)) => assert_eq!(data.student_info(), &texts(&["kept"])),
        _ => panic!("the workflow did not end with a profile"),
    }
}

#[test]
fn profile_rejects_a_reply_that_does_not_fit() {
    let tab = open(&config_with_budget(PROFILE_RETRIES));
    let unexpected: Step<ProfileState, ProfileData> =
        Step::Finished(Err(PortalError::UnexpectedReply));
    assert_eq!(tab.get_profile_info(ProfileState::start(), Some(Reply::Done)), unexpected);
    let step = tab.get_profile_info(ProfileState::start(), None);
    match step {
        Step::Continue { state, .. } => {
            assert_eq!(tab.get_profile_info(state, Some(Reply::Count(3))), unexpected)
        }
        Step::Finished(_) => panic!("the workflow ended early"),
    }
    let mut mock = MockBrowser::showing(vec![vec!["a"]]);
    mock.address = None;
    mock.image = Image::WithoutSource;
    let mut step = tab.get_profile_info(ProfileState::start(), None);
    for _ in 0..4 {
        step = match step {
            Step::Continue { state, command } => {
                let reply = mock.perform(command);
                tab.get_profile_info(state, Some(reply))
            }
            Step::Finished(_) => panic!("the workflow ended early"),
        };
    }
    match step {
        Step::Continue { state, command } => {
            assert_eq!(command, Command::ReadSource(Target::ProfileImage));
            assert_eq!(
                tab.get_profile_info(state, Some(Reply::Text("not an attribute".to_string()))),
                unexpected
            );
        }
        Step::Finished(_) => panic!("the workflow ended early"),
    }
}

#[test]
fn assemble_refuses_a_profile_without_fields() {
    let result = ProfileData::assemble("pic".to_string(), "home".to_string(), Vec::new());
    assert_eq!(result, Err(PortalError::EmptyResult));
}

#[test]
fn assemble_keeps_what_it_is_given() {
    let data =
        ProfileData::assemble("pic".to_string(), "home".to_string(), texts(&["one"])).unwrap();
    assert_eq!(data.profile_img(), "pic");
    assert_eq!(data.address(), "home");
    assert_eq!(data.student_info(), &texts(&["one"]));
}

#[test]
fn report_shows_image_address_and_three_fields() {
    assert_eq!(REPORTED_FIELDS, 3);
    let mut mock =
        MockBrowser::showing(vec![vec!["Name", "Ada"], vec!["Year", "2"], vec!["Dept", "CS"]]);
    let data = fetch(&mut mock).unwrap();
    assert_eq!(
        data.report(),
        Ok(texts(&["/img/student.png", "12 Elm Street", "Ada", "2", "CS"]))
    );
}

#[test]
fn report_shows_only_the_first_three_fields() {
    let fields = texts(&["1", "2", "3", "4", "5"]);
    let data = ProfileData::assemble("pic".to_string(), "home".to_string(), fields).unwrap();
    assert_eq!(data.report(), Ok(texts(&["pic", "home", "1", "2", "3"])));
}

#[test]
fn report_of_too_few_fields_is_an_error() {
    let data =
        ProfileData::assemble("pic".to_string(), "home".to_string(), texts(&["1", "2"])).unwrap();
    let result = data.report();
    assert_eq!(result, Err(PortalError::MissingFields));
    assert_eq!(result.unwrap_err().message(), "Student info is incomplete.");
    let data = ProfileData::assemble("pic".to_string(), "home".to_string(), texts(&["1"])).unwrap();
    assert_eq!(data.report(), Err(PortalError::MissingFields));
}

fn table(rows: &[&[&str]]) -> Vec<Vec<String>> {
    rows.iter().map(|row| texts(row)).collect()
}

#[test]
fn fields_of_a_table_are_its_last_cells() {
    assert_eq!(fields_of(&table(&[&["a", "b"], &["c"], &[]])), texts(&["b", "c"]));
    assert_eq!(fields_of(&table(&[&[], &["x", "y", "z"], &[], &["w"]])), texts(&["z", "w"]));
    assert_eq!(fields_of(&table(&[&["only"]])), texts(&["only"]));
}

#[test]
fn fields_of_a_table_without_cells_are_none() {
    assert_eq!(fields_of(&table(&[])), texts(&[]));
    assert_eq!(fields_of(&table(&[&[], &[], &[]])), texts(&[]));
}

#[test]
fn from_page_makes_the_profile_of_the_page() {
    let rows = table(&[&["a", "b"], &["c"], &[]]);
    let data =
        ProfileData::from_page(Some("pic.png".to_string()), "home".to_string(), &rows).unwrap();
    assert_eq!(data.profile_img(), "pic.png");
    assert_eq!(data.address(), "home");
    assert_eq!(data.student_info(), &texts(&["b", "c"]));
}

#[test]
fn from_page_without_source_gives_empty_image_address() {
    let rows = table(&[&["a", "b"]]);
    let data = ProfileData::from_page(None, "home".to_string(), &rows).unwrap();
    assert_eq!(data.profile_img(), "");
    assert_eq!(data.student_info(), &texts(&["b"]));
}

#[test]
fn from_page_without_fields_is_an_empty_result() {
    let result = ProfileData::from_page(Some("pic".to_string()), "home".to_string(), &table(&[]));
    assert_eq!(result, Err(PortalError::EmptyResult));
    let rows = table(&[&[], &[]]);
    assert_eq!(ProfileData::from_page(None, "home".to_string(), &rows), Err(PortalError::EmptyResult));
}

#[test]
fn workflow_and_from_page_agree() {
    let pages: Vec<Vec<Vec<&'static str>>> = vec![
        vec![vec!["a", "b"], vec!["c"], vec![]],
        vec![vec![], vec![]],
        vec![],
        vec![vec!["1", "2", "3"], vec!["4"], vec![], vec!["5", "6"]],
    ];
    for rows in pages {
        let whole: Vec<Vec<String>> = rows.iter().map(|row| texts(row)).collect();
        let mut mock = MockBrowser::showing(rows);
        mock.image = Image::WithoutSource;
        let stepwise = fetch(&mut mock);
        let at_once = ProfileData::from_page(None, "12 Elm Street".to_string(), &whole);
        assert_eq!(stepwise, at_once);
    }
}
