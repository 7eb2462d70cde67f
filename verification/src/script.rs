//! What a browser that behaves says while a tab is polled, and what a
//! workflow that polls makes of it.

use vstd::prelude::*;
use crate::driver::{CommandView, ReplyView, StepView, POLL_INTERVAL_SECS};
use crate::run::{command_of, issued, lemma_resume_first, resume};
use crate::poll::{first_arrival, lemma_first_arrival, spec_observe, Poll};

verus! {

/// The replies of a driver while a tab is polled and shows `urls`, one at
/// each read: for each read, that the pause is over, and then the address.
pub open spec fn poll_script(urls: Seq<Seq<char>>) -> Seq<ReplyView>
    decreases urls.len(),
{
    if urls.len() == 0 {
        Seq::empty()
    } else {
        seq![ReplyView::Done, ReplyView::Url(urls.first())] + poll_script(urls.drop_first())
    }
}

/// The commands of so many polls: for each, the pause and then the read.
pub open spec fn poll_commands(reads: nat) -> Seq<CommandView>
    decreases reads,
{
    if reads == 0 {
        Seq::empty()
    } else {
        seq![CommandView::Sleep(POLL_INTERVAL_SECS), CommandView::ReadUrl] + poll_commands(
            (reads - 1) as nat,
        )
    }
}

/// `urls` are the addresses of a polling that went to its end: either the
/// last of them is the first that is `target`, and it came within the
/// budget, or they are as many as the budget allows and none is `target`.
pub open spec fn polled_out(urls: Seq<Seq<char>>, target: Seq<char>, budget: u32) -> bool {
    match first_arrival(urls, target, budget as nat) {
        Some(index) => index + 1 == urls.len(),
        None => urls.len() == budget,
    }
}

/// `urls` are the addresses of a polling that arrived: the last of them is
/// `target`, none before it is, and they are no more than the budget allows.
pub open spec fn arrives(urls: Seq<Seq<char>>, target: Seq<char>, budget: u32) -> bool {
    &&& 0 < urls.len() <= budget
    &&& urls.last() == target
    &&& forall|i: int| 0 <= i < urls.len() - 1 ==> urls[i] != target
}

/// `urls` are the addresses of a polling that used its budget up: they are
/// as many as the budget allows, and none of them is `target`.
pub open spec fn never_arrives(urls: Seq<Seq<char>>, target: Seq<char>, budget: u32) -> bool {
    &&& urls.len() == budget
    &&& forall|i: int| 0 <= i < urls.len() ==> urls[i] != target
}

/// A polling that went to its end either arrived or used its budget up, and
/// `first_arrival` tells which.
pub proof fn lemma_polled_out(urls: Seq<Seq<char>>, target: Seq<char>, budget: u32)
    ensures
        arrives(urls, target, budget) <==> polled_out(urls, target, budget) && first_arrival(
            urls,
            target,
            budget as nat,
        ) is Some,
        never_arrives(urls, target, budget) <==> polled_out(urls, target, budget) && first_arrival(
            urls,
            target,
            budget as nat,
        ) is None,
{
    lemma_first_arrival(urls, target, budget as nat);
}

/// `transition` polls for `target`: in the state `pausing(n)` the end of the
/// pause leads to a read in the state `polling(n)`, and there an address
/// leads to what `spec_observe` decides of it: to `arrived`, to the pause of
/// the next poll, or to `exhausted`.
pub open spec fn polls<S, T>(
    transition: spec_fn(S, Option<ReplyView>) -> StepView<S, T>,
    target: Seq<char>,
    pausing: spec_fn(u32) -> S,
    polling: spec_fn(u32) -> S,
    arrived: StepView<S, T>,
    exhausted: StepView<S, T>,
) -> bool {
    &&& forall|remaining: u32| #[trigger]
        transition(pausing(remaining), Some(ReplyView::Done)) == StepView::<
            S,
            T,
        >::Continue { state: polling(remaining), command: CommandView::ReadUrl }
    &&& forall|remaining: u32, url: Seq<char>| #[trigger]
        transition(polling(remaining), Some(ReplyView::Url(url))) == match spec_observe(
            remaining,
            url,
            target,
        ) {
            Poll::Arrived => arrived,
            Poll::Again(left) => StepView::Continue {
                state: pausing(left),
                command: CommandView::Sleep(POLL_INTERVAL_SECS),
            },
            Poll::Exhausted => exhausted,
        }
}

/// A workflow that polls, and is handed the addresses of a polling that went
/// to its end, is then where the polling leads: at `arrived` if the last
/// address is the target, at `exhausted` if none is. It has asked for one
/// pause and one read for each address, and for nothing else.
pub proof fn lemma_polling<S, T>(
    transition: spec_fn(S, Option<ReplyView>) -> StepView<S, T>,
    target: Seq<char>,
    pausing: spec_fn(u32) -> S,
    polling: spec_fn(u32) -> S,
    arrived: StepView<S, T>,
    exhausted: StepView<S, T>,
    remaining: u32,
    urls: Seq<Seq<char>>,
)
    requires
        polls(transition, target, pausing, polling, arrived, exhausted),
        remaining >= 1,
        polled_out(urls, target, remaining),
    ensures
        ({
            let waiting = StepView::<S, T>::Continue {
                state: pausing(remaining),
                command: CommandView::Sleep(POLL_INTERVAL_SECS),
            };
            let end = if first_arrival(urls, target, remaining as nat) is Some {
                arrived
            } else {
                exhausted
            };
            &&& resume(transition, waiting, poll_script(urls)) == end
            &&& command_of(waiting) + issued(transition, waiting, poll_script(urls))
                == poll_commands(urls.len()) + command_of(end)
        }),
    decreases urls.len(),
{
    let waiting = StepView::<S, T>::Continue {
        state: pausing(remaining),
        command: CommandView::Sleep(POLL_INTERVAL_SECS),
    };
    let sleep = CommandView::Sleep(POLL_INTERVAL_SECS);
    // The budget allows a read, so a polling that went to its end has one.
    assert(urls.len() > 0);
    let url = urls.first();
    let rest = urls.drop_first();
    let reading = StepView::<S, T>::Continue {
        state: polling(remaining),
        command: CommandView::ReadUrl,
    };
    let after = transition(polling(remaining), Some(ReplyView::Url(url)));
    let tail = seq![ReplyView::Url(url)] + poll_script(rest);
    assert(poll_script(urls) =~= seq![ReplyView::Done] + tail);
    lemma_resume_first(transition, pausing(remaining), sleep, ReplyView::Done, tail);
    assert(transition(pausing(remaining), Some(ReplyView::Done)) == reading);
    lemma_resume_first(
        transition,
        polling(remaining),
        CommandView::ReadUrl,
        ReplyView::Url(url),
        poll_script(rest),
    );
    let done = issued(transition, after, poll_script(rest));
    assert(issued(transition, waiting, poll_script(urls)) == seq![CommandView::ReadUrl] + (
    command_of(after) + done));
    match spec_observe(remaining, url, target) {
        Poll::Arrived => {
            assert(rest.len() == 0);
            assert(poll_commands(1) =~= seq![sleep, CommandView::ReadUrl]) by {
                reveal_with_fuel(poll_commands, 2);
            }
            assert(seq![sleep] + (seq![CommandView::ReadUrl] + (command_of(after)
                + Seq::<CommandView>::empty())) =~= seq![sleep, CommandView::ReadUrl]
                + command_of(after));
        },
        Poll::Exhausted => {
            assert(first_arrival(rest, target, 0) is None);
            assert(rest.len() == 0);
            assert(poll_commands(1) =~= seq![sleep, CommandView::ReadUrl]) by {
                reveal_with_fuel(poll_commands, 2);
            }
            assert(seq![sleep] + (seq![CommandView::ReadUrl] + (command_of(after)
                + Seq::<CommandView>::empty())) =~= seq![sleep, CommandView::ReadUrl]
                + command_of(after));
        },
        Poll::Again(left) => {
            lemma_polling(transition, target, pausing, polling, arrived, exhausted, left, rest);
            let end = if first_arrival(rest, target, left as nat) is Some {
                arrived
            } else {
                exhausted
            };
            assert(command_of(after) + done == poll_commands(rest.len()) + command_of(end));
            assert(seq![sleep] + (seq![CommandView::ReadUrl] + (poll_commands(rest.len())
                + command_of(end))) =~= (seq![sleep, CommandView::ReadUrl] + poll_commands(
                rest.len(),
            )) + command_of(end));
        },
    }
}

} // verus!
