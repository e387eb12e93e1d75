//! What holds of the blocking decorator over any history of calls.

use vstd::prelude::*;
use crate::sink::{accepted_by, lemma_accepted_by_push, Call};
use crate::writer::Writer;

verus! {

/// What an accumulator that has absorbed `stream` has absorbed once it has
/// been handed each of `slices` in turn, oldest first.
pub open spec fn fed_directly(stream: Seq<u8>, slices: Seq<Seq<u8>>) -> Seq<u8>
    decreases slices.len(),
{
    if slices.len() == 0 {
        stream
    } else {
        fed_directly(stream, slices.drop_last()) + slices.last()
    }
}

/// The bytes that each call of a history put into the sink, call by call.
pub open spec fn accepted_slices(calls: Seq<Call>) -> Seq<Seq<u8>> {
    calls.map_values(|call: Call| call.accepted())
}

/// Handing an accumulator slices one by one comes to the same as handing it
/// their concatenation at once.
pub proof fn lemma_fed_directly_is_concatenation(stream: Seq<u8>, slices: Seq<Seq<u8>>)
    ensures
        fed_directly(stream, slices) == stream + slices.flatten(),
    decreases slices.len(),
{
    if slices.len() == 0 {
        assert(stream + slices.flatten() == stream);
    } else {
        let earlier = slices.drop_last();
        lemma_fed_directly_is_concatenation(stream, earlier);
        earlier.lemma_flatten_push(slices.last());
        assert(earlier.push(slices.last()) == slices);
        assert((stream + earlier.flatten()) + slices.last() == stream + (earlier.flatten()
            + slices.last()));
    }
}

/// How a stream is cut into slices does not matter to the accumulator: two
/// ways of cutting the same bytes leave it with the same bytes absorbed.
pub proof fn lemma_chunking_is_immaterial(stream: Seq<u8>, one: Seq<Seq<u8>>, other: Seq<Seq<u8>>)
    requires
        one.flatten() == other.flatten(),
    ensures
        fed_directly(stream, one) == fed_directly(stream, other),
{
    lemma_fed_directly_is_concatenation(stream, one);
    lemma_fed_directly_is_concatenation(stream, other);
}

/// What a sink accepted over a history is the concatenation, in call order,
/// of what it accepted in each call.
pub proof fn lemma_accepted_is_concatenation(calls: Seq<Call>)
    ensures
        accepted_by(calls) == accepted_slices(calls).flatten(),
    decreases calls.len(),
{
    if calls.len() == 0 {
        assert(accepted_slices(calls) == Seq::<Seq<u8>>::empty());
    } else {
        let earlier = calls.drop_last();
        lemma_accepted_is_concatenation(earlier);
        accepted_slices(earlier).lemma_flatten_push(calls.last().accepted());
        assert(accepted_slices(earlier).push(calls.last().accepted()) == accepted_slices(calls));
    }
}

/// Two histories one after the other put into the sink what the first put
/// there, then what the second did.
pub proof fn lemma_accepted_by_concat(earlier: Seq<Call>, later: Seq<Call>)
    ensures
        accepted_by(earlier + later) == accepted_by(earlier) + accepted_by(later),
    decreases later.len(),
{
    if later.len() == 0 {
        assert(earlier + later == earlier);
        assert(accepted_by(earlier) + accepted_by(later) == accepted_by(earlier));
    } else {
        lemma_accepted_by_concat(earlier, later.drop_last());
        assert((earlier + later).drop_last() == earlier + later.drop_last());
        assert((accepted_by(earlier) + accepted_by(later.drop_last())) + later.last().accepted()
            == accepted_by(earlier) + (accepted_by(later.drop_last()) + later.last().accepted()));
    }
}

/// In a synchronized writer the accumulator has absorbed exactly what it
/// would have absorbed had it been handed, directly and in call order, the
/// bytes that the sink accepted in each call: its seed, then their
/// concatenation.
pub proof fn lemma_writes_match_direct_feeding<W, H>(writer: Writer<W, H>)
    requires
        writer.synchronized(),
    ensures
        writer.absorbed() == fed_directly(writer.seed(), accepted_slices(writer.calls())),
        writer.absorbed() == writer.seed() + accepted_slices(writer.calls()).flatten(),
{
    lemma_accepted_is_concatenation(writer.calls());
    lemma_fed_directly_is_concatenation(writer.seed(), accepted_slices(writer.calls()));
}

/// The writes of a history, in order, without its flushes.
pub open spec fn writes_of(calls: Seq<Call>) -> Seq<Call> {
    calls.filter(|call: Call| call.is_write())
}

/// Flushes put nothing into the sink: a history and the same history without
/// its flushes account for the same bytes.
pub proof fn lemma_flushes_add_nothing(calls: Seq<Call>)
    ensures
        accepted_by(calls) == accepted_by(writes_of(calls)),
    decreases calls.len(),
{
    if calls.len() > 0 {
        let earlier = calls.drop_last();
        lemma_flushes_add_nothing(earlier);
        assert(earlier.push(calls.last()) == calls);
        earlier.lemma_filter_push(calls.last(), |call: Call| call.is_write());
        if calls.last().is_write() {
            assert(writes_of(calls) == writes_of(earlier).push(calls.last()));
            lemma_accepted_by_push(writes_of(earlier), calls.last());
        } else {
            assert(writes_of(calls) == writes_of(earlier));
            assert(accepted_by(earlier) + calls.last().accepted() == accepted_by(earlier));
        }
    }
}

/// A writer that goes on from where another stopped ends where one writer
/// that did all the work would: let `first` start from nothing, let `resumed`
/// start from what `first` has absorbed, and let `whole` start from nothing
/// and have its sink accept what the sinks of the two accepted, one after the
/// other. Then `resumed` and `whole` have absorbed the same bytes.
pub proof fn lemma_resumed_matches_whole<W, H>(
    first: Writer<W, H>,
    resumed: Writer<W, H>,
    whole: Writer<W, H>,
)
    requires
        first.synchronized(),
        resumed.synchronized(),
        whole.synchronized(),
        first.seed() == Seq::<u8>::empty(),
        whole.seed() == Seq::<u8>::empty(),
        resumed.seed() == first.absorbed(),
        whole.accepted() == first.accepted() + resumed.accepted(),
    ensures
        resumed.absorbed() == whole.absorbed(),
{
    assert(first.seed() + first.accepted() == first.accepted());
    assert(whole.seed() + whole.accepted() == whole.accepted());
}

} // verus!
