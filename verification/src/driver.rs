//! The vocabulary between a workflow and the party that drives the browser.

use vstd::prelude::*;
use crate::error::{Credential, PortalError, Target};

verus! {

/// Seconds of pause before each poll of a tab's address.
pub const POLL_INTERVAL_SECS: u64 = 1;

/// What a workflow asks the driver to do next. A command that speaks of the
/// tab means the tab that the workflow opened with `OpenTab`; a login opens
/// none and means the tab of its session.
#[derive(Debug, PartialEq, Eq)]
pub enum Command {
    /// Start the browser.
    Launch,
    /// Open a tab in the running browser.
    OpenTab,
    /// Ask the tab to load the address.
    Navigate(String),
    /// Block until the load that `Navigate` began has settled.
    AwaitLoad,
    /// Report the address the tab is at.
    ReadUrl,
    /// Pause for so many seconds.
    Sleep(u64),
    /// Wait for the element and click it.
    Click(Target),
    /// Type the text into whatever has the focus.
    Type(String),
    /// Find the element and report its `src` attribute, if it has one.
    ReadSource(Target),
    /// Find the element and report its inner text.
    ReadText(Target),
    /// Find all table rows and report how many there are.
    CountRows,
    /// Find the cells of the row with this index and report how many there
    /// are.
    CountCells(usize),
    /// Report the inner text of a cell, given by the index of its row and its
    /// own index in the row.
    ReadCell(usize, usize),
}

/// What the driver reports for a command.
#[derive(Debug, PartialEq, Eq)]
pub enum Reply {
    /// The command was carried out and has nothing to report.
    Done,
    /// The address the tab is at.
    Url(String),
    /// The attribute's value, or `None` where the element has no such
    /// attribute.
    Attribute(Option<String>),
    /// An inner text.
    Text(String),
    /// A number of elements.
    Count(usize),
    /// The element was not located.
    NotFound,
    /// The driver failed in another way.
    Failed,
}

/// A `Command` with its texts as sequences of characters and its indices as
/// natural numbers.
pub enum CommandView {
    Launch,
    OpenTab,
    Navigate(Seq<char>),
    AwaitLoad,
    ReadUrl,
    Sleep(u64),
    Click(Target),
    Type(Seq<char>),
    ReadSource(Target),
    ReadText(Target),
    CountRows,
    CountCells(nat),
    ReadCell(nat, nat),
}

/// A `Reply` with its texts as sequences of characters and its count as a
/// natural number.
pub enum ReplyView {
    Done,
    Url(Seq<char>),
    Attribute(Option<Seq<char>>),
    Text(Seq<char>),
    Count(nat),
    NotFound,
    Failed,
}

impl View for Command {
    type V = CommandView;

    open spec fn view(&self) -> CommandView {
        match self {
            Command::Launch => CommandView::Launch,
            Command::OpenTab => CommandView::OpenTab,
            Command::Navigate(url) => CommandView::Navigate(url@),
            Command::AwaitLoad => CommandView::AwaitLoad,
            Command::ReadUrl => CommandView::ReadUrl,
            Command::Sleep(seconds) => CommandView::Sleep(*seconds),
            Command::Click(target) => CommandView::Click(*target),
            Command::Type(text) => CommandView::Type(text@),
            Command::ReadSource(target) => CommandView::ReadSource(*target),
            Command::ReadText(target) => CommandView::ReadText(*target),
            Command::CountRows => CommandView::CountRows,
            Command::CountCells(row) => CommandView::CountCells(*row as nat),
            Command::ReadCell(row, cell) => CommandView::ReadCell(*row as nat, *cell as nat),
        }
    }
}

impl View for Reply {
    type V = ReplyView;

    open spec fn view(&self) -> ReplyView {
        match self {
            Reply::Done => ReplyView::Done,
            Reply::Url(url) => ReplyView::Url(url@),
            Reply::Attribute(value) => ReplyView::Attribute(
                match value {
                    Some(text) => Some(text@),
                    None => None,
                },
            ),
            Reply::Text(text) => ReplyView::Text(text@),
            Reply::Count(count) => ReplyView::Count(*count as nat),
            Reply::NotFound => ReplyView::NotFound,
            Reply::Failed => ReplyView::Failed,
        }
    }
}

/// The view of the reply that a transition function is handed: `None` on the
/// call that begins the workflow.
pub open spec fn reply_view(reply: Option<Reply>) -> Option<ReplyView> {
    match reply {
        Some(reply) => Some(reply@),
        None => None,
    }
}

/// What a transition function answers: the workflow goes on with a command
/// for the driver, or it has ended with its result.
#[derive(Debug, PartialEq, Eq)]
pub enum Step<S, T> {
    Continue { state: S, command: Command },
    Finished(Result<T, PortalError>),
}

/// A `Step` over the views of its state and its result.
pub enum StepView<S, T> {
    Continue { state: S, command: CommandView },
    Finished(Result<T, PortalError>),
}

impl<S: View, T: View> View for Step<S, T> {
    type V = StepView<S::V, T::V>;

    open spec fn view(&self) -> StepView<S::V, T::V> {
        match self {
            Step::Continue { state, command } => StepView::Continue {
                state: state@,
                command: command@,
            },
            Step::Finished(Ok(value)) => StepView::Finished(Ok(value@)),
            Step::Finished(Err(error)) => StepView::Finished(Err(*error)),
        }
    }
}

impl<S, T> StepView<S, T> {
    /// The step a workflow ends in on a reply that its pending command cannot
    /// have.
    pub open spec fn unexpected() -> Self {
        StepView::Finished(Err(PortalError::UnexpectedReply))
    }
}

impl<S: View, T: View> Step<S, T> {
    /// The step that ends a workflow on a reply that its pending command
    /// cannot have.
    pub fn unexpected() -> (step: Self)
        ensures
            step@ == StepView::<S::V, T::V>::unexpected(),
    {
        Step::Finished(Err(PortalError::UnexpectedReply))
    }

    /// The step that ends a workflow in `error`.
    pub fn failed(error: PortalError) -> (step: Self)
        ensures
            step@ == StepView::<S::V, T::V>::Finished(Err(error)),
    {
        Step::Finished(Err(error))
    }
}

/// What a reply to a click on `target` says went wrong, if anything did.
pub open spec fn click_error(reply: Option<ReplyView>, target: Target) -> Option<PortalError> {
    match reply {
        Some(ReplyView::Done) => None,
        Some(ReplyView::NotFound) => Some(PortalError::ElementNotFound(target)),
        Some(ReplyView::Failed) => Some(PortalError::ClickFailed(target)),
        _ => Some(PortalError::UnexpectedReply),
    }
}

/// What a reply to the typing of `text` says went wrong, if anything did.
pub open spec fn typing_error(reply: Option<ReplyView>, text: Credential) -> Option<PortalError> {
    match reply {
        Some(ReplyView::Done) => None,
        Some(ReplyView::Failed) => Some(PortalError::TypeFailed(text)),
        _ => Some(PortalError::UnexpectedReply),
    }
}

/// What a reply to a command that can only go through or fail says went
/// wrong, if anything did: `error` where the command failed.
pub open spec fn action_error(reply: Option<ReplyView>, error: PortalError) -> Option<PortalError> {
    match reply {
        Some(ReplyView::Done) => None,
        Some(ReplyView::Failed) => Some(error),
        _ => Some(PortalError::UnexpectedReply),
    }
}

/// The step `next`, unless something went wrong: then the workflow ends in
/// that error.
pub open spec fn unless<S, T>(error: Option<PortalError>, next: StepView<S, T>) -> StepView<S, T> {
    match error {
        Some(error) => StepView::Finished(Err(error)),
        None => next,
    }
}

pub fn check_click(reply: &Option<Reply>, target: Target) -> (error: Option<PortalError>)
    ensures
        error == click_error(reply_view(*reply), target),
{
    match reply {
        Some(Reply::Done) => None,
        Some(Reply::NotFound) => Some(PortalError::ElementNotFound(target)),
        Some(Reply::Failed) => Some(PortalError::ClickFailed(target)),
        _ => Some(PortalError::UnexpectedReply),
    }
}

pub fn check_typing(reply: &Option<Reply>, text: Credential) -> (error: Option<PortalError>)
    ensures
        error == typing_error(reply_view(*reply), text),
{
    match reply {
        Some(Reply::Done) => None,
        Some(Reply::Failed) => Some(PortalError::TypeFailed(text)),
        _ => Some(PortalError::UnexpectedReply),
    }
}

pub fn check_action(reply: &Option<Reply>, error: PortalError) -> (found: Option<PortalError>)
    ensures
        found == action_error(reply_view(*reply), error),
{
    match reply {
        Some(Reply::Done) => None,
        Some(Reply::Failed) => Some(error),
        _ => Some(PortalError::UnexpectedReply),
    }
}

} // verus!
