//! What it means to run a workflow against the replies of a driver.

use vstd::prelude::*;
use crate::driver::{CommandView, ReplyView, StepView};

verus! {

/// The step a workflow is at after the driver has answered its commands, one
/// after the other, with `replies`. `transition` is the workflow's transition
/// function and `current` the step it is at before the first of the replies.
/// A workflow that has ended stays where it is: further replies are ignored.
pub open spec fn resume<S, T>(
    transition: spec_fn(S, Option<ReplyView>) -> StepView<S, T>,
    current: StepView<S, T>,
    replies: Seq<ReplyView>,
) -> StepView<S, T>
    decreases replies.len(),
{
    if replies.len() == 0 {
        current
    } else {
        match current {
            StepView::Finished(_) => current,
            StepView::Continue { state, .. } => resume(
                transition,
                transition(state, Some(replies.first())),
                replies.drop_first(),
            ),
        }
    }
}

/// The command that a step hands the driver, as a sequence: empty for a
/// workflow that has ended.
pub open spec fn command_of<S, T>(step: StepView<S, T>) -> Seq<CommandView> {
    match step {
        StepView::Continue { command, .. } => seq![command],
        StepView::Finished(_) => Seq::empty(),
    }
}

/// The commands that `replies` lead to, in order: for each reply that the
/// workflow takes, the command it goes on with, if it goes on. The command of
/// `current` itself, which the first reply answers, is not among them.
pub open spec fn issued<S, T>(
    transition: spec_fn(S, Option<ReplyView>) -> StepView<S, T>,
    current: StepView<S, T>,
    replies: Seq<ReplyView>,
) -> Seq<CommandView>
    decreases replies.len(),
{
    if replies.len() == 0 {
        Seq::empty()
    } else {
        match current {
            StepView::Finished(_) => Seq::empty(),
            StepView::Continue { state, .. } => {
                let next = transition(state, Some(replies.first()));
                command_of(next) + issued(transition, next, replies.drop_first())
            },
        }
    }
}

/// A workflow that has ended stays ended, whatever the driver says, and
/// hands out no further command.
pub proof fn lemma_finished_stays<S, T>(
    transition: spec_fn(S, Option<ReplyView>) -> StepView<S, T>,
    current: StepView<S, T>,
    replies: Seq<ReplyView>,
)
    requires
        current is Finished,
    ensures
        resume(transition, current, replies) == current,
        issued(transition, current, replies) == Seq::<CommandView>::empty(),
{
}

/// Feeding one reply and then the rest is feeding them all.
pub proof fn lemma_resume_first<S, T>(
    transition: spec_fn(S, Option<ReplyView>) -> StepView<S, T>,
    state: S,
    command: CommandView,
    first: ReplyView,
    rest: Seq<ReplyView>,
)
    ensures
        resume(transition, StepView::Continue { state, command }, seq![first] + rest) == resume(
            transition,
            transition(state, Some(first)),
            rest,
        ),
        issued(transition, StepView::Continue { state, command }, seq![first] + rest)
            == command_of(transition(state, Some(first))) + issued(
            transition,
            transition(state, Some(first)),
            rest,
        ),
{
    let replies = seq![first] + rest;
    assert(replies.first() == first);
    assert(replies.drop_first() =~= rest);
}

/// Feeding `front` and then `back` is feeding `front + back`.
pub proof fn lemma_resume_concat<S, T>(
    transition: spec_fn(S, Option<ReplyView>) -> StepView<S, T>,
    current: StepView<S, T>,
    front: Seq<ReplyView>,
    back: Seq<ReplyView>,
)
    ensures
        resume(transition, current, front + back) == resume(
            transition,
            resume(transition, current, front),
            back,
        ),
        issued(transition, current, front + back) == issued(transition, current, front) + issued(
            transition,
            resume(transition, current, front),
            back,
        ),
    decreases front.len(),
{
    if front.len() == 0 {
        assert(front + back =~= back);
        assert(Seq::<CommandView>::empty() + issued(transition, current, back) =~= issued(
            transition,
            current,
            back,
        ));
    } else {
        match current {
            StepView::Finished(_) => {
                lemma_finished_stays(transition, current, back);
                lemma_finished_stays(transition, current, front + back);
                assert(Seq::<CommandView>::empty() + Seq::<CommandView>::empty()
                    =~= Seq::<CommandView>::empty());
            },
            StepView::Continue { state, .. } => {
                let next = transition(state, Some(front.first()));
                assert((front + back).first() == front.first());
                assert((front + back).drop_first() =~= front.drop_first() + back);
                lemma_resume_concat(transition, next, front.drop_first(), back);
                let tail = issued(transition, next, front.drop_first());
                let after = issued(
                    transition,
                    resume(transition, next, front.drop_first()),
                    back,
                );
                assert(command_of(next) + (tail + after) =~= (command_of(next) + tail) + after);
            },
        }
    }
}

} // verus!
