//! Polling: what a poll can give, and the order in which the batches of a response are awaited.
use vstd::prelude::*;

verus! {

/// What a poll that did not fail has to say.
#[derive(Debug, PartialEq, Eq)]
pub enum Async<T> {
    /// The value is there.
    Ready(T),
    /// The value is not there yet; poll again later.
    NotReady,
}

/// The result of a poll.
pub type Poll<T, E> = Result<Async<T>, E>;

/// What became of an item that was offered to a sink.
#[derive(Debug, PartialEq, Eq)]
pub enum AsyncSink<T> {
    /// The sink took the item.
    Ready,
    /// The sink has no room; here is the item again.
    NotReady(T),
}

/// A batch of operations under way on a call, named by the position in the call's list of
/// operations of the operation that started it.
#[derive(Clone, Copy, Debug, PartialEq, Eq, Structural)]
pub struct BatchFuture {
    pub index: usize,
}

/// What a waiting response wants after it has been told the outcome of a poll.
#[derive(Debug, PartialEq, Eq)]
pub enum Step<E> {
    /// Poll this batch and report the outcome.
    Poll(BatchFuture),
    /// Nothing more to poll now: this is what the caller gets.
    Return(Poll<(), E>),
}

/// Whether the outcome of a poll is that the batch has finished.
pub open spec fn is_ready<E>(outcome: Poll<(), E>) -> bool {
    outcome matches Ok(Async::Ready(_))
}

/// A response that waits for its two batches: the one that sends the status, until it has
/// finished, and then the one that learns of the end of the call.
pub struct Finish {
    /// The status batch, while it is awaited.
    pub status: Option<BatchFuture>,
    /// The batch that ends with the call.
    pub close: BatchFuture,
}

impl Finish {
    /// The batch to poll next.
    pub open spec fn next_batch(self) -> BatchFuture {
        match self.status {
            Some(batch) => batch,
            None => self.close,
        }
    }

    /// The state after `next_batch` was polled with this outcome.
    pub open spec fn advance<E>(self, outcome: Poll<(), E>) -> Finish {
        if is_ready(outcome) {
            Finish { status: None, close: self.close }
        } else {
            self
        }
    }

    /// What the response wants after `next_batch` was polled with this outcome.
    pub open spec fn answer<E>(self, outcome: Poll<(), E>) -> Step<E> {
        match outcome {
            Ok(Async::Ready(_)) => if self.status is Some {
                Step::Poll(self.close)
            } else {
                Step::Return(Ok(Async::Ready(())))
            },
            Ok(Async::NotReady) => Step::Return(Ok(Async::NotReady)),
            Err(e) => Step::Return(Err(e)),
        }
    }

    /// The state after a run of polls, each of the batch that was next in its turn, with these
    /// outcomes.
    pub open spec fn run<E>(self, outcomes: Seq<Poll<(), E>>) -> Finish
        decreases outcomes.len(),
    {
        if outcomes.len() == 0 {
            self
        } else {
            self.run(outcomes.drop_last()).advance(outcomes.last())
        }
    }
}

/// A run that has begun with the status batch awaited goes on to the close batch exactly when
/// some poll of the run found its batch finished; the close batch stays the same throughout.
pub proof fn run_moves_on_at_first_ready<E>(wait: Finish, outcomes: Seq<Poll<(), E>>)
    requires
        wait.status is Some,
    ensures
        wait.run(outcomes).close == wait.close,
        wait.run(outcomes).status is None <==> exists|i: int|
            0 <= i < outcomes.len() && is_ready(#[trigger] outcomes[i]),
        wait.run(outcomes).status is Some ==> wait.run(outcomes) == wait,
    decreases outcomes.len(),
{
    if outcomes.len() > 0 {
        let before = outcomes.drop_last();
        run_moves_on_at_first_ready(wait, before);
        if wait.run(before).status is None {
            let i = choose|i: int| 0 <= i < before.len() && is_ready(#[trigger] before[i]);
            assert(is_ready(outcomes[i]));
        } else if is_ready(outcomes.last()) {
            assert(is_ready(outcomes[outcomes.len() - 1]));
        } else {
            assert forall|i: int| 0 <= i < outcomes.len() implies !is_ready(
                #[trigger] outcomes[i],
            ) by {
                if i < before.len() {
                    assert(outcomes[i] == before[i]);
                }
            }
        }
    }
}

/// A batch that has finished is not polled again: once the poll at position `i` found the status
/// batch finished, every later poll is of the close batch.
pub proof fn finished_status_is_not_polled_again<E>(
    wait: Finish,
    outcomes: Seq<Poll<(), E>>,
    i: int,
    j: int,
)
    requires
        wait.status is Some,
        0 <= i < j <= outcomes.len(),
        wait.run(outcomes.take(i)).status is Some,
        is_ready(outcomes[i]),
    ensures
        wait.run(outcomes.take(j)).status is None,
        wait.run(outcomes.take(j)).next_batch() == wait.close,
{
    run_moves_on_at_first_ready(wait, outcomes.take(j));
    assert(is_ready(outcomes.take(j)[i]));
}

/// The close batch is polled only after the status batch has finished: as long as no poll found
/// its batch finished, the next poll is of the status batch.
pub proof fn close_waits_for_status<E>(wait: Finish, outcomes: Seq<Poll<(), E>>)
    requires
        wait.status is Some,
        forall|i: int| 0 <= i < outcomes.len() ==> !is_ready(#[trigger] outcomes[i]),
    ensures
        wait.run(outcomes).next_batch() == wait.status->0,
{
    run_moves_on_at_first_ready(wait, outcomes);
}

/// The response reports that it is complete exactly when a poll finds its batch finished and an
/// earlier one had found its own finished: both batches are through, and no sooner.
pub proof fn complete_when_both_batches_are<E>(
    wait: Finish,
    outcomes: Seq<Poll<(), E>>,
    outcome: Poll<(), E>,
)
    requires
        wait.status is Some,
    ensures
        wait.run(outcomes).answer(outcome) == Step::<E>::Return(Ok(Async::Ready(()))) <==> (
        is_ready(outcome) && exists|i: int|
            0 <= i < outcomes.len() && is_ready(#[trigger] outcomes[i])),
{
    run_moves_on_at_first_ready(wait, outcomes);
}

/// A failed poll ends the round with that very error, and a poll that finds the batch unfinished
/// ends it with "not ready"; neither changes what is awaited.
pub proof fn unfinished_poll_changes_nothing<E>(wait: Finish, outcome: Poll<(), E>)
    requires
        !is_ready(outcome),
    ensures
        wait.advance(outcome) == wait,
        wait.answer(outcome) == Step::<E>::Return(outcome),
{
}

} // verus!
