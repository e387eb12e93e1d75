//! What holds of the suspendable decorator over any history of attempts.

use vstd::prelude::*;
use crate::async_sink::{
    accepted_by_attempts,
    completed_part,
    lemma_accepted_by_attempts_push,
    AsyncCall,
    Attempt,
};
use crate::async_writer::AsyncWriter;
use crate::laws::{fed_directly, lemma_fed_directly_is_concatenation};

verus! {

/// The bytes that each attempt of a history put into the sink, attempt by
/// attempt.
pub open spec fn completed_slices(calls: Seq<AsyncCall>) -> Seq<Seq<u8>> {
    calls.map_values(|call: AsyncCall| call.accepted())
}

/// The completed writes of a history, in order, without anything else: no
/// attempt that found the sink not ready, none that failed, no flush and no
/// shutdown.
pub open spec fn completed_writes_of(calls: Seq<AsyncCall>) -> Seq<AsyncCall> {
    calls.filter(|call: AsyncCall| call.is_completed_write())
}

/// A write of `buf` that found the sink not ready `times` times in a row.
pub open spec fn pending_writes(buf: Seq<u8>, times: nat) -> Seq<AsyncCall> {
    Seq::new(times, |i: int| AsyncCall::Write(buf, Attempt::Pending))
}

/// What a sink accepted over a history is the concatenation, in call order,
/// of what it accepted in each attempt.
pub proof fn lemma_completed_is_concatenation(calls: Seq<AsyncCall>)
    ensures
        accepted_by_attempts(calls) == completed_slices(calls).flatten(),
    decreases calls.len(),
{
    if calls.len() == 0 {
        assert(completed_slices(calls) == Seq::<Seq<u8>>::empty());
    } else {
        let earlier = calls.drop_last();
        lemma_completed_is_concatenation(earlier);
        completed_slices(earlier).lemma_flatten_push(calls.last().accepted());
        assert(completed_slices(earlier).push(calls.last().accepted()) == completed_slices(calls));
    }
}

/// In a synchronized writer the accumulator has absorbed exactly what it
/// would have absorbed had it been handed, directly and in call order, the
/// bytes that the sink accepted in each attempt: its seed, then their
/// concatenation.
pub proof fn lemma_attempts_match_direct_feeding<W, H>(writer: AsyncWriter<W, H>)
    requires
        writer.synchronized(),
    ensures
        writer.absorbed() == fed_directly(writer.seed(), completed_slices(writer.calls())),
        writer.absorbed() == writer.seed() + completed_slices(writer.calls()).flatten(),
{
    lemma_completed_is_concatenation(writer.calls());
    lemma_fed_directly_is_concatenation(writer.seed(), completed_slices(writer.calls()));
}

/// Only completed writes put anything into the sink: a history and the same
/// history without its pending and failed attempts, its flushes and its
/// shutdowns account for the same bytes.
pub proof fn lemma_only_completed_writes_count(calls: Seq<AsyncCall>)
    ensures
        accepted_by_attempts(calls) == accepted_by_attempts(completed_writes_of(calls)),
    decreases calls.len(),
{
    if calls.len() > 0 {
        let earlier = calls.drop_last();
        lemma_only_completed_writes_count(earlier);
        assert(earlier.push(calls.last()) == calls);
        earlier.lemma_filter_push(calls.last(), |call: AsyncCall| call.is_completed_write());
        if calls.last().is_completed_write() {
            lemma_accepted_by_attempts_push(completed_writes_of(earlier), calls.last());
        } else {
            assert(accepted_by_attempts(earlier) + calls.last().accepted() == accepted_by_attempts(
                earlier,
            ));
        }
    }
}

/// However often a write finds the sink not ready before it completes, the
/// sink has in the end accepted what it would have accepted had the write
/// completed at the first attempt.
pub proof fn lemma_retries_add_nothing(buf: Seq<u8>, times: nat, last: Attempt<usize>)
    ensures
        accepted_by_attempts(pending_writes(buf, times).push(AsyncCall::Write(buf, last)))
            == completed_part(buf, last),
        accepted_by_attempts(pending_writes(buf, times).push(AsyncCall::Write(buf, last)))
            == accepted_by_attempts(seq![AsyncCall::Write(buf, last)]),
{
    let once = seq![AsyncCall::Write(buf, last)];
    assert(Seq::<AsyncCall>::empty().push(AsyncCall::Write(buf, last)) == once);
    lemma_accepted_by_attempts_push(Seq::<AsyncCall>::empty(), AsyncCall::Write(buf, last));
    assert(Seq::<u8>::empty() + completed_part(buf, last) == completed_part(buf, last));
    lemma_pending_writes_accept_nothing(buf, times);
    lemma_accepted_by_attempts_push(pending_writes(buf, times), AsyncCall::Write(buf, last));
}

/// A write that has only found the sink not ready has put nothing into it.
pub proof fn lemma_pending_writes_accept_nothing(buf: Seq<u8>, times: nat)
    ensures
        accepted_by_attempts(pending_writes(buf, times)) == Seq::<u8>::empty(),
    decreases times,
{
    if times > 0 {
        let fewer = (times - 1) as nat;
        lemma_pending_writes_accept_nothing(buf, fewer);
        assert(pending_writes(buf, times).drop_last() == pending_writes(buf, fewer));
        assert(Seq::<u8>::empty() + Seq::<u8>::empty() == Seq::<u8>::empty());
    }
}

/// A writer that goes on from where another stopped ends where one writer
/// that did all the work would: let `first` start from nothing, let `resumed`
/// start from what `first` has absorbed, and let `whole` start from nothing
/// and have its sink accept what the sinks of the two accepted, one after the
/// other. Then `resumed` and `whole` have absorbed the same bytes.
pub proof fn lemma_resumed_attempts_match_whole<W, H>(
    first: AsyncWriter<W, H>,
    resumed: AsyncWriter<W, H>,
    whole: AsyncWriter<W, H>,
)
    requires
        first.synchronized(),
        resumed.synchronized(),
        whole.synchronized(),
        first.seed() == Seq::<u8>::empty(),
        whole.seed() == Seq::<u8>::empty(),
        resumed.seed() == first.absorbed(),
        whole.accepted() == first.accepted() + resumed.accepted(),
    ensures
        resumed.absorbed() == whole.absorbed(),
{
    assert(first.seed() + first.accepted() == first.accepted());
    assert(whole.seed() + whole.accepted() == whole.accepted());
}

} // verus!
