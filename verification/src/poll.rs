//! Polling by count: a tab's address is read up to a fixed number of times,
//! with a pause before each read, until it is the address waited for.

use vstd::prelude::*;

verus! {

/// What a poll decides.
#[derive(Debug, Clone, Copy, PartialEq, Eq)]
pub enum Poll {
    /// The tab is at the address waited for.
    Arrived,
    /// It is not there yet; so many reads are left.
    Again(u32),
    /// It is not there and no read is left.
    Exhausted,
}

/// What is decided before the first read, with `budget` reads allowed.
pub open spec fn spec_begin(budget: u32) -> Poll {
    if budget == 0 {
        Poll::Exhausted
    } else {
        Poll::Again(budget)
    }
}

/// What is decided on a read that gave `url`, when `remaining` reads were
/// left, this one included.
pub open spec fn spec_observe(remaining: u32, url: Seq<char>, target: Seq<char>) -> Poll {
    if url == target {
        Poll::Arrived
    } else if remaining <= 1 {
        Poll::Exhausted
    } else {
        Poll::Again((remaining - 1) as u32)
    }
}

/// The index of the first of `urls` that is `target`, among the first
/// `budget` of them; `None` where none of those is.
pub open spec fn first_arrival(urls: Seq<Seq<char>>, target: Seq<char>, budget: nat) -> Option<
    nat,
>
    decreases urls.len(),
{
    if budget == 0 || urls.len() == 0 {
        None
    } else if urls.first() == target {
        Some(0)
    } else {
        match first_arrival(urls.drop_first(), target, (budget - 1) as nat) {
            Some(index) => Some(index + 1),
            None => None,
        }
    }
}

pub fn begin(budget: u32) -> (poll: Poll)
    ensures
        poll == spec_begin(budget),
{
    if budget == 0 {
        Poll::Exhausted
    } else {
        Poll::Again(budget)
    }
}

pub fn observe(remaining: u32, url: &String, target: &String) -> (poll: Poll)
    ensures
        poll == spec_observe(remaining, url@, target@),
{
    if *url == *target {
        Poll::Arrived
    } else if remaining <= 1 {
        Poll::Exhausted
    } else {
        Poll::Again(remaining - 1)
    }
}

/// `first_arrival` finds an address that is the target, and none before it
/// is; where it finds none, none of the reads that the budget allows is the
/// target.
pub proof fn lemma_first_arrival(urls: Seq<Seq<char>>, target: Seq<char>, budget: nat)
    ensures
        match first_arrival(urls, target, budget) {
            Some(index) => {
                &&& index < budget
                &&& index < urls.len()
                &&& urls[index as int] == target
                &&& forall|i: int| 0 <= i < index ==> urls[i] != target
            },
            None => forall|i: int| 0 <= i < urls.len() && i < budget ==> urls[i] != target,
        },
    decreases urls.len(),
{
    if budget == 0 || urls.len() == 0 {
    } else if urls.first() == target {
    } else {
        let rest = urls.drop_first();
        lemma_first_arrival(rest, target, (budget - 1) as nat);
        assert(forall|i: int| 0 < i < urls.len() ==> urls[i] == rest[i - 1]);
    }
}

} // verus!
