//! Laws of the polling state machine over whole runs of re-entries.
//!
//! `poll_mailbox_status` states what a single poll does; the lemmas here
//! lift that to any sequence of polls, each observing one target-status
//! value: while the done bit stays clear no completion is ever delivered
//! and the operation stays pending, and once a completion is delivered no
//! later poll delivers another — the callback fires exactly once per
//! accepted operation.

use vstd::prelude::*;
use crate::ctrl::{pending_after_poll, poll_fires_callback};
use crate::regs::done_bit;

verus! {

/// Whether an operation is still in flight after a run of polls that
/// observed the given target-status values in order, starting from a state
/// where `pending` says whether one was in flight.
pub open spec fn pending_after_polls(pending: bool, statuses: Seq<u32>) -> bool
    decreases statuses.len(),
{
    if statuses.len() == 0 {
        pending
    } else {
        pending_after_poll(pending_after_polls(pending, statuses.drop_last()), statuses.last())
    }
}

/// Whether the poll at position `i` of such a run delivers a completion:
/// only if the operation is still pending when it runs and it observes the
/// done bit set.
pub open spec fn fires_at(pending: bool, statuses: Seq<u32>, i: int) -> bool
    recommends
        0 <= i < statuses.len(),
{
    poll_fires_callback(pending_after_polls(pending, statuses.take(i)), statuses[i])
}

/// One step of the run: still pending after the first `i + 1` polls means
/// still pending after the first `i`, and the done bit clear at poll `i`.
proof fn lemma_pending_after_polls_step(pending: bool, statuses: Seq<u32>, i: int)
    requires
        0 <= i < statuses.len(),
    ensures
        pending_after_polls(pending, statuses.take(i + 1)) == pending_after_poll(
            pending_after_polls(pending, statuses.take(i)),
            statuses[i],
        ),
{
    assert(statuses.take(i + 1).drop_last() =~= statuses.take(i));
    assert(statuses.take(i + 1).last() == statuses[i]);
}

/// Once the operation is no longer pending, no later poll makes it pending
/// again: only accepting a new request does that.
proof fn lemma_not_pending_stays(pending: bool, statuses: Seq<u32>, i: int, j: int)
    requires
        0 <= i <= j <= statuses.len(),
        !pending_after_polls(pending, statuses.take(i)),
    ensures
        !pending_after_polls(pending, statuses.take(j)),
    decreases j - i,
{
    if i < j {
        lemma_not_pending_stays(pending, statuses, i, j - 1);
        lemma_pending_after_polls_step(pending, statuses, j - 1);
    }
}

/// While the done bit stays clear, polling never delivers a completion and
/// the operation stays pending, so the mailbox lock is never released.
pub proof fn lemma_no_callback_while_not_done(pending: bool, statuses: Seq<u32>)
    requires
        forall|i: int| 0 <= i < statuses.len() ==> done_bit(#[trigger] statuses[i]) == 0,
    ensures
        pending_after_polls(pending, statuses) == pending,
        forall|i: int| 0 <= i < statuses.len() ==> !fires_at(pending, statuses, i),
    decreases statuses.len(),
{
    if statuses.len() > 0 {
        lemma_no_callback_while_not_done(pending, statuses.drop_last());
        assert(forall|i: int| 0 <= i < statuses.len() - 1 ==> #[trigger] statuses.drop_last()[i]
            == statuses[i]);
        assert forall|i: int| 0 <= i < statuses.len() implies !fires_at(
            pending,
            statuses,
            i,
        ) by {
            assert(done_bit(statuses[i]) == 0);
        }
    }
}

/// A poll that delivers a completion leaves the operation no longer
/// pending from the very next poll on.
proof fn lemma_fires_clears_pending(pending: bool, statuses: Seq<u32>, i: int)
    requires
        0 <= i < statuses.len(),
        fires_at(pending, statuses, i),
    ensures
        !pending_after_polls(pending, statuses.take(i + 1)),
{
    lemma_pending_after_polls_step(pending, statuses, i);
}

/// The completion callback fires at most once over any run of polls: two
/// distinct polls of one run cannot both deliver a completion.
pub proof fn lemma_callback_at_most_once(pending: bool, statuses: Seq<u32>, i: int, j: int)
    requires
        0 <= i < statuses.len(),
        0 <= j < statuses.len(),
        i != j,
        fires_at(pending, statuses, i),
    ensures
        !fires_at(pending, statuses, j),
{
    if i < j {
        lemma_fires_clears_pending(pending, statuses, i);
        lemma_not_pending_stays(pending, statuses, i + 1, j);
    } else {
        if fires_at(pending, statuses, j) {
            lemma_fires_clears_pending(pending, statuses, j);
            lemma_not_pending_stays(pending, statuses, j + 1, i);
            assert(false);
        }
    }
}

/// The callback does fire: with an operation in flight, the first poll
/// that observes the done bit set delivers the completion.
pub proof fn lemma_callback_fires_at_first_done(pending: bool, statuses: Seq<u32>, k: int)
    requires
        pending,
        0 <= k < statuses.len(),
        done_bit(statuses[k]) == 1,
        forall|i: int| 0 <= i < k ==> done_bit(#[trigger] statuses[i]) == 0,
    ensures
        fires_at(pending, statuses, k),
{
    lemma_no_callback_while_not_done(pending, statuses.take(k));
    assert(forall|i: int| 0 <= i < k ==> #[trigger] statuses.take(k)[i] == statuses[i]);
}

} // verus!
