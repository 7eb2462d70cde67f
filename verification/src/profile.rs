//! The profile scraper: it opens the profile page in a tab of its own and
//! reads the image address, the address text and the last cell of each table
//! row.

use vstd::prelude::*;
use crate::config::PortalConfigView;
use crate::driver::{Command, CommandView, Reply, ReplyView, Step, StepView, POLL_INTERVAL_SECS};
use crate::driver::{action_error, check_action, reply_view, unless};
use crate::error::{PortalError, Target};
use crate::poll::{begin, observe, spec_begin, spec_observe, Poll};
use crate::session::BrowserTab;
use crate::table::{fields_of, last_cells, Table};

verus! {

/// How many of a profile's fields a report shows.
pub const REPORTED_FIELDS: usize = 3;

/// What was read from the profile page. It holds at least one field: a page
/// that gave none is an error, not a profile.
#[derive(Debug, PartialEq, Eq)]
pub struct ProfileData {
    profile_img: String,
    address: String,
    student_info: Vec<String>,
}

/// A `ProfileData` with its texts as sequences of characters.
pub struct ProfileDataView {
    /// The `src` attribute of the page's first image; empty where the image
    /// has none.
    pub profile_img: Seq<char>,
    /// The inner text of the address panel.
    pub address: Seq<char>,
    /// The text of the last cell of each table row that has cells, in the
    /// order of the rows.
    pub student_info: Seq<Seq<char>>,
}

impl View for ProfileData {
    type V = ProfileDataView;

    closed spec fn view(&self) -> ProfileDataView {
        ProfileDataView {
            profile_img: self.profile_img@,
            address: self.address@,
            student_info: self.student_info.deep_view(),
        }
    }
}

/// The profile made of what was read, or `EmptyResult` where no row gave a
/// field.
pub open spec fn spec_assemble(
    profile_img: Seq<char>,
    address: Seq<char>,
    student_info: Seq<Seq<char>>,
) -> Result<ProfileDataView, PortalError> {
    if student_info.len() == 0 {
        Err(PortalError::EmptyResult)
    } else {
        Ok(ProfileDataView { profile_img, address, student_info })
    }
}

/// The image address that a profile gets: the attribute's value, or the
/// empty text where the image has no such attribute.
pub open spec fn image_source(image: Option<Seq<char>>) -> Seq<char> {
    match image {
        Some(source) => source,
        None => Seq::empty(),
    }
}

/// The profile of a page whose first image has the `src` attribute `image`,
/// or none, whose address panel reads `address` and whose table is `table`;
/// `EmptyResult` where no row of the table has a cell.
pub open spec fn spec_from_page(
    image: Option<Seq<char>>,
    address: Seq<char>,
    table: Table,
) -> Result<ProfileDataView, PortalError> {
    spec_assemble(image_source(image), address, last_cells(table))
}

/// What a report shows of a profile: the image address, the address text and
/// the first `REPORTED_FIELDS` fields; `MissingFields` where the profile has
/// fewer.
pub open spec fn spec_report(data: ProfileDataView) -> Result<Seq<Seq<char>>, PortalError> {
    if data.student_info.len() < REPORTED_FIELDS {
        Err(PortalError::MissingFields)
    } else {
        Ok(
            seq![data.profile_img, data.address] + data.student_info.subrange(
                0,
                REPORTED_FIELDS as int,
            ),
        )
    }
}

impl ProfileData {
    #[verifier::type_invariant]
    spec fn has_fields(self) -> bool {
        self.student_info.len() > 0
    }

    /// The profile made of an image address, an address text and fields:
    /// `spec_assemble` on their views. Without a field there is no profile.
    pub fn assemble(profile_img: String, address: String, student_info: Vec<String>) -> (result:
        Result<ProfileData, PortalError>)
        ensures
            match result {
                Ok(data) => Ok(data@),
                Err(error) => Err(error),
            } == spec_assemble(profile_img@, address@, student_info.deep_view()),
    {
        if student_info.len() == 0 {
            Err(PortalError::EmptyResult)
        } else {
            Ok(ProfileData { profile_img, address, student_info })
        }
    }

    /// The profile of a page that has been read as a whole: `spec_from_page`
    /// on the views. `image` is the `src` attribute of the page's first
    /// image, if it has one, `address` the text of the address panel, and
    /// `table` the texts of the table's cells, row by row.
    pub fn from_page(image: Option<String>, address: String, table: &Vec<Vec<String>>) -> (result:
        Result<ProfileData, PortalError>)
        ensures
            match result {
                Ok(data) => Ok(data@),
                Err(error) => Err(error),
            } == spec_from_page(
                match image {
                    Some(source) => Some(source@),
                    None => None,
                },
                address@,
                table.deep_view(),
            ),
    {
        let profile_img = match image {
            Some(source) => source,
            None => String::new(),
        };
        ProfileData::assemble(profile_img, address, fields_of(table))
    }

    /// The address of the profile image; empty where the image had none.
    pub fn profile_img(&self) -> (text: &String)
        ensures
            text@ == self@.profile_img,
    {
        &self.profile_img
    }

    /// The text of the address panel.
    pub fn address(&self) -> (text: &String)
        ensures
            text@ == self@.address,
    {
        &self.address
    }

    /// The fields, in the order of their rows; there is at least one.
    pub fn student_info(&self) -> (fields: &Vec<String>)
        ensures
            fields.deep_view() == self@.student_info,
            fields.len() > 0,
    {
        proof {
            use_type_invariant(self);
        }
        &self.student_info
    }

    /// The values that a report shows, in the order in which it shows them.
    pub fn report(&self) -> (result: Result<Vec<String>, PortalError>)
        ensures
            match result {
                Ok(lines) => Ok(lines.deep_view()),
                Err(error) => Err(error),
            } == spec_report(self@),
    {
        if self.student_info.len() < REPORTED_FIELDS {
            return Err(PortalError::MissingFields);
        }
        let mut lines: Vec<String> = Vec::new();
        lines.push(self.profile_img.clone());
        lines.push(self.address.clone());
        let mut index: usize = 0;
        while index < REPORTED_FIELDS
            invariant
                index <= REPORTED_FIELDS <= self.student_info.len(),
                lines.deep_view() =~= seq![self@.profile_img, self@.address]
                    + self@.student_info.subrange(0, index as int),
            decreases REPORTED_FIELDS - index,
        {
            let field = self.student_info[index].clone();
            let ghost before = lines.deep_view();
            lines.push(field);
            index = index + 1;
            proof {
                assert(lines.deep_view() =~= before.push(field@));
                assert(self@.student_info.subrange(0, index as int)
                    =~= self@.student_info.subrange(0, index - 1).push(field@));
            }
        }
        Ok(lines)
    }
}

/// Where the reading of the profile stands: each phase but `Start` names the
/// command whose reply is awaited.
#[derive(Debug, Clone, Copy, PartialEq, Eq)]
pub enum ProfilePhase {
    /// Nothing has been asked of the driver yet.
    Start,
    /// `OpenTab` is pending.
    OpeningTab,
    /// `Navigate` to the profile page is pending.
    Navigating,
    /// `Sleep` is pending; so many polls are left, the coming one included.
    Pausing(u32),
    /// `ReadUrl` is pending; so many polls are left, this one included.
    Polling(u32),
    /// `ReadSource` of the image is pending.
    ReadingImage,
    /// `ReadText` of the address panel is pending.
    ReadingAddress,
    /// `CountRows` is pending.
    CountingRows,
    /// `CountCells` of the current row is pending.
    CountingCells,
    /// `ReadCell` of the current row's last cell is pending.
    ReadingCell,
}

/// The state of the profile workflow: its phase and what has been read so
/// far.
#[derive(Debug, PartialEq, Eq)]
pub struct ProfileState {
    phase: ProfilePhase,
    profile_img: String,
    address: String,
    student_info: Vec<String>,
    rows: usize,
    row: usize,
}

/// A `ProfileState` with its texts as sequences of characters.
pub struct ProfileStateView {
    pub phase: ProfilePhase,
    /// The image address, once it has been read.
    pub profile_img: Seq<char>,
    /// The address text, once it has been read.
    pub address: Seq<char>,
    /// The fields that the rows before `row` gave.
    pub student_info: Seq<Seq<char>>,
    /// The number of table rows, once they have been counted.
    pub rows: nat,
    /// The index of the row that is being read.
    pub row: nat,
}

impl View for ProfileState {
    type V = ProfileStateView;

    closed spec fn view(&self) -> ProfileStateView {
        ProfileStateView {
            phase: self.phase,
            profile_img: self.profile_img@,
            address: self.address@,
            student_info: self.student_info.deep_view(),
            rows: self.rows as nat,
            row: self.row as nat,
        }
    }
}

impl ProfileStateView {
    /// The state in which the workflow begins.
    pub open spec fn start() -> ProfileStateView {
        ProfileStateView {
            phase: ProfilePhase::Start,
            profile_img: Seq::empty(),
            address: Seq::empty(),
            student_info: Seq::empty(),
            rows: 0,
            row: 0,
        }
    }

    /// The state in another phase.
    pub open spec fn at(self, phase: ProfilePhase) -> ProfileStateView {
        ProfileStateView { phase, ..self }
    }
}

/// The step the profile workflow takes on what a poll decided: once the tab
/// is at the profile page the reading begins, with the image.
pub open spec fn profile_poll(state: ProfileStateView, poll: Poll) -> StepView<
    ProfileStateView,
    ProfileDataView,
> {
    match poll {
        Poll::Arrived => StepView::Continue {
            state: state.at(ProfilePhase::ReadingImage),
            command: CommandView::ReadSource(Target::ProfileImage),
        },
        Poll::Again(remaining) => StepView::Continue {
            state: state.at(ProfilePhase::Pausing(remaining)),
            command: CommandView::Sleep(POLL_INTERVAL_SECS),
        },
        Poll::Exhausted => StepView::Finished(Err(PortalError::NavigationTimeout)),
    }
}

/// The step that turns to the row with index `state.row`: its cells are
/// counted; after the last row the profile is made of what was read.
pub open spec fn visit_row(state: ProfileStateView) -> StepView<ProfileStateView, ProfileDataView> {
    if state.row < state.rows {
        StepView::Continue {
            state: state.at(ProfilePhase::CountingCells),
            command: CommandView::CountCells(state.row),
        }
    } else {
        StepView::Finished(spec_assemble(state.profile_img, state.address, state.student_info))
    }
}

/// The reading of the profile, as a transition function.
///
/// A tab is opened and sent to the profile page, and its address is polled,
/// with a pause before each read, until it is the profile page or
/// `profile_retries` reads have been made: then the workflow ends in
/// `NavigationTimeout`. On the page, the image's `src` is read, and an image
/// without one gives the empty text; then the address panel's text; then the
/// rows are counted and visited in order. A row's cells are counted: of a row
/// with cells the last cell's text is read and becomes the next field, a row
/// without cells gives nothing. A page without rows, or one whose rows gave
/// no field, ends the workflow in `EmptyResult`.
pub open spec fn profile_next(
    config: PortalConfigView,
    state: ProfileStateView,
    reply: Option<ReplyView>,
) -> StepView<ProfileStateView, ProfileDataView> {
    match state.phase {
        ProfilePhase::Start => match reply {
            None => StepView::Continue {
                state: state.at(ProfilePhase::OpeningTab),
                command: CommandView::OpenTab,
            },
            Some(_) => StepView::unexpected(),
        },
        ProfilePhase::OpeningTab => unless(
            action_error(reply, PortalError::Launch),
            StepView::Continue {
                state: state.at(ProfilePhase::Navigating),
                command: CommandView::Navigate(config.profile_url),
            },
        ),
        ProfilePhase::Navigating => unless(
            action_error(reply, PortalError::Navigation),
            profile_poll(state, spec_begin(config.profile_retries)),
        ),
        ProfilePhase::Pausing(remaining) => match reply {
            Some(ReplyView::Done) => StepView::Continue {
                state: state.at(ProfilePhase::Polling(remaining)),
                command: CommandView::ReadUrl,
            },
            _ => StepView::unexpected(),
        },
        ProfilePhase::Polling(remaining) => match reply {
            Some(ReplyView::Url(url)) => profile_poll(
                state,
                spec_observe(remaining, url, config.profile_url),
            ),
            _ => StepView::unexpected(),
        },
        ProfilePhase::ReadingImage => match reply {
            Some(ReplyView::Attribute(value)) => StepView::Continue {
                state: ProfileStateView {
                    phase: ProfilePhase::ReadingAddress,
                    profile_img: match value {
                        Some(source) => source,
                        None => Seq::empty(),
                    },
                    ..state
                },
                command: CommandView::ReadText(Target::AddressPanel),
            },
            Some(ReplyView::NotFound) => StepView::Finished(
                Err(PortalError::ElementNotFound(Target::ProfileImage)),
            ),
            Some(ReplyView::Failed) => StepView::Finished(
                Err(PortalError::ReadFailed(Target::ProfileImage)),
            ),
            _ => StepView::unexpected(),
        },
        ProfilePhase::ReadingAddress => match reply {
            Some(ReplyView::Text(text)) => StepView::Continue {
                state: ProfileStateView {
                    phase: ProfilePhase::CountingRows,
                    address: text,
                    ..state
                },
                command: CommandView::CountRows,
            },
            Some(ReplyView::NotFound) => StepView::Finished(
                Err(PortalError::ElementNotFound(Target::AddressPanel)),
            ),
            Some(ReplyView::Failed) => StepView::Finished(
                Err(PortalError::ReadFailed(Target::AddressPanel)),
            ),
            _ => StepView::unexpected(),
        },
        ProfilePhase::CountingRows => match reply {
            Some(ReplyView::Count(rows)) => visit_row(ProfileStateView { rows, row: 0, ..state }),
            Some(ReplyView::NotFound) => visit_row(ProfileStateView { rows: 0, row: 0, ..state }),
            Some(ReplyView::Failed) => StepView::Finished(
                Err(PortalError::ReadFailed(Target::TableRow)),
            ),
            _ => StepView::unexpected(),
        },
        ProfilePhase::CountingCells => match reply {
            Some(ReplyView::Count(cells)) => if cells > 0 {
                StepView::Continue {
                    state: state.at(ProfilePhase::ReadingCell),
                    command: CommandView::ReadCell(state.row, (cells - 1) as nat),
                }
            } else {
                visit_row(ProfileStateView { row: state.row + 1, ..state })
            },
            Some(ReplyView::NotFound) => visit_row(
                ProfileStateView { row: state.row + 1, ..state },
            ),
            Some(ReplyView::Failed) => StepView::Finished(
                Err(PortalError::ReadFailed(Target::TableCell)),
            ),
            _ => StepView::unexpected(),
        },
        ProfilePhase::ReadingCell => match reply {
            Some(ReplyView::Text(text)) => visit_row(
                ProfileStateView {
                    row: state.row + 1,
                    student_info: state.student_info.push(text),
                    ..state
                },
            ),
            Some(ReplyView::NotFound) => StepView::Finished(
                Err(PortalError::ElementNotFound(Target::TableCell)),
            ),
            Some(ReplyView::Failed) => StepView::Finished(
                Err(PortalError::ReadFailed(Target::TableCell)),
            ),
            _ => StepView::unexpected(),
        },
    }
}

impl ProfileState {
    #[verifier::type_invariant]
    spec fn row_in_table(self) -> bool {
        (self.phase is CountingCells || self.phase is ReadingCell) ==> self.row < self.rows
    }

    /// The state in which the workflow begins.
    pub fn start() -> (state: ProfileState)
        ensures
            state@ == ProfileStateView::start(),
    {
        let state = ProfileState {
            phase: ProfilePhase::Start,
            profile_img: String::new(),
            address: String::new(),
            student_info: Vec::new(),
            rows: 0,
            row: 0,
        };
        assert(state.student_info.deep_view() =~= Seq::<Seq<char>>::empty());
        state
    }

    /// The phase the workflow is in.
    pub fn phase(&self) -> (phase: ProfilePhase)
        ensures
            phase == self@.phase,
    {
        self.phase
    }

    /// The state in another phase.
    fn at(self, phase: ProfilePhase) -> (state: ProfileState)
        requires
            !(phase is CountingCells || phase is ReadingCell) || self.row < self.rows,
        ensures
            state@ == self@.at(phase),
    {
        let ProfileState { phase: _, profile_img, address, student_info, rows, row } = self;
        ProfileState { phase, profile_img, address, student_info, rows, row }
    }

    fn on_poll(self, poll: Poll) -> (step: Step<ProfileState, ProfileData>)
        requires
            !(self.phase is CountingCells || self.phase is ReadingCell),
        ensures
            step@ == profile_poll(self@, poll),
    {
        match poll {
            Poll::Arrived => Step::Continue {
                state: self.at(ProfilePhase::ReadingImage),
                command: Command::ReadSource(Target::ProfileImage),
            },
            Poll::Again(remaining) => Step::Continue {
                state: self.at(ProfilePhase::Pausing(remaining)),
                command: Command::Sleep(POLL_INTERVAL_SECS),
            },
            Poll::Exhausted => Step::failed(PortalError::NavigationTimeout),
        }
    }
}

/// The step that turns to the row with index `row`, with what has been read
/// so far.
fn turn_to_row(
    profile_img: String,
    address: String,
    student_info: Vec<String>,
    rows: usize,
    row: usize,
) -> (step: Step<ProfileState, ProfileData>)
    requires
        row <= rows,
    ensures
        step@ == visit_row(
            ProfileStateView {
                phase: ProfilePhase::CountingRows,
                profile_img: profile_img@,
                address: address@,
                student_info: student_info.deep_view(),
                rows: rows as nat,
                row: row as nat,
            },
        ),
{
    if row < rows {
        Step::Continue {
            state: ProfileState {
                phase: ProfilePhase::CountingCells,
                profile_img,
                address,
                student_info,
                rows,
                row,
            },
            command: Command::CountCells(row),
        }
    } else {
        Step::Finished(ProfileData::assemble(profile_img, address, student_info))
    }
}

impl BrowserTab {
    /// One step of the reading of the profile: `profile_next` on the views.
    /// The workflow begins with `ProfileState::start()` and no reply. It ends
    /// with the profile, which has at least one field, or with the error that
    /// stopped it.
    pub fn get_profile_info(&self, state: ProfileState, reply: Option<Reply>) -> (step: Step<
        ProfileState,
        ProfileData,
    >)
        ensures
            step@ == profile_next(self@, state@, reply_view(reply)),
            step@ matches StepView::Finished(Ok(data)) ==> data.student_info.len() > 0,
    {
        proof {
            use_type_invariant(&state);
        }
        match state.phase {
            ProfilePhase::Start => match reply {
                None => Step::Continue {
                    state: state.at(ProfilePhase::OpeningTab),
                    command: Command::OpenTab,
                },
                Some(_) => Step::unexpected(),
            },
            ProfilePhase::OpeningTab => match check_action(&reply, PortalError::Launch) {
                None => Step::Continue {
                    state: state.at(ProfilePhase::Navigating),
                    command: Command::Navigate(self.config().profile_url.clone()),
                },
                Some(error) => Step::failed(error),
            },
            ProfilePhase::Navigating => match check_action(&reply, PortalError::Navigation) {
                None => state.on_poll(begin(self.config().profile_retries)),
                Some(error) => Step::failed(error),
            },
            ProfilePhase::Pausing(remaining) => match reply {
                Some(Reply::Done) => Step::Continue {
                    state: state.at(ProfilePhase::Polling(remaining)),
                    command: Command::ReadUrl,
                },
                _ => Step::unexpected(),
            },
            ProfilePhase::Polling(remaining) => match reply {
                Some(Reply::Url(url)) => state.on_poll(
                    observe(remaining, &url, &self.config().profile_url),
                ),
                _ => Step::unexpected(),
            },
            ProfilePhase::ReadingImage => match reply {
                Some(Reply::Attribute(value)) => {
                    let ProfileState { phase: _, profile_img: _, address, student_info, rows, row } =
                        state;
                    let profile_img = match value {
                        Some(source) => source,
                        None => String::new(),
                    };
                    Step::Continue {
                        state: ProfileState {
                            phase: ProfilePhase::ReadingAddress,
                            profile_img,
                            address,
                            student_info,
                            rows,
                            row,
                        },
                        command: Command::ReadText(Target::AddressPanel),
                    }
                },
                Some(Reply::NotFound) => Step::failed(PortalError::ElementNotFound(Target::ProfileImage)),
                Some(Reply::Failed) => Step::failed(PortalError::ReadFailed(Target::ProfileImage)),
                _ => Step::unexpected(),
            },
            ProfilePhase::ReadingAddress => match reply {
                Some(Reply::Text(text)) => {
                    let ProfileState { phase: _, profile_img, address: _, student_info, rows, row } =
                        state;
                    Step::Continue {
                        state: ProfileState {
                            phase: ProfilePhase::CountingRows,
                            profile_img,
                            address: text,
                            student_info,
                            rows,
                            row,
                        },
                        command: Command::CountRows,
                    }
                },
                Some(Reply::NotFound) => Step::failed(PortalError::ElementNotFound(Target::AddressPanel)),
                Some(Reply::Failed) => Step::failed(PortalError::ReadFailed(Target::AddressPanel)),
                _ => Step::unexpected(),
            },
            ProfilePhase::CountingRows => match reply {
                Some(Reply::Count(rows)) => turn_to_row(
                    state.profile_img,
                    state.address,
                    state.student_info,
                    rows,
                    0,
                ),
                Some(Reply::NotFound) => turn_to_row(
                    state.profile_img,
                    state.address,
                    state.student_info,
                    0,
                    0,
                ),
                Some(Reply::Failed) => Step::failed(PortalError::ReadFailed(Target::TableRow)),
                _ => Step::unexpected(),
            },
            ProfilePhase::CountingCells => match reply {
                Some(Reply::Count(cells)) => if cells > 0 {
                    let row: usize = state.row;
                    Step::Continue {
                        state: state.at(ProfilePhase::ReadingCell),
                        command: Command::ReadCell(row, cells - 1),
                    }
                } else {
                    turn_to_row(
                        state.profile_img,
                        state.address,
                        state.student_info,
                        state.rows,
                        state.row + 1,
                    )
                },
                Some(Reply::NotFound) => turn_to_row(
                    state.profile_img,
                    state.address,
                    state.student_info,
                    state.rows,
                    state.row + 1,
                ),
                Some(Reply::Failed) => Step::failed(PortalError::ReadFailed(Target::TableCell)),
                _ => Step::unexpected(),
            },
            ProfilePhase::ReadingCell => match reply {
                Some(Reply::Text(text)) => {
                    let ProfileState { phase: _, profile_img, address, student_info, rows, row } =
                        state;
                    let mut student_info = student_info;
                    let ghost before = student_info.deep_view();
                    let ghost field = text@;
                    student_info.push(text);
                    assert(student_info.deep_view() =~= before.push(field));
                    turn_to_row(profile_img, address, student_info, rows, row + 1)
                },
                Some(Reply::NotFound) => Step::failed(PortalError::ElementNotFound(Target::TableCell)),
                Some(Reply::Failed) => Step::failed(PortalError::ReadFailed(Target::TableCell)),
                _ => Step::unexpected(),
            },
        }
    }
}

} // verus!
