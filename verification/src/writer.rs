//! The blocking decorator: every write goes to the sink first, and the
//! accumulator then absorbs exactly the bytes that the sink accepted.

use vstd::prelude::*;
use crate::accumulator::Accumulator;
use crate::sink::{accepted_by, accepted_part, lemma_accepted_by_push, Call, Sink};

verus! {

/// The accumulator's half of a write whose outcome is known: where the sink
/// accepted `n` bytes, `hash` absorbs the first `n` bytes of `buf` and nothing
/// else; where the sink failed, `hash` is left exactly as it was. The outcome
/// is handed back as it came.
pub fn absorb_accepted<H: chksum_core::Hash>(
    hash: &mut Accumulator<H>,
    buf: &[u8],
    outcome: Result<usize, std::io::Error>,
) -> (result: Result<usize, std::io::Error>)
    requires
        outcome matches Ok(n) ==> n <= buf@.len(),
    ensures
        result == outcome,
        final(hash)@ == old(hash)@ + accepted_part(buf@, outcome),
        outcome is Err ==> *final(hash) == *old(hash),
{
    match outcome {
        Ok(n) => {
            hash.update(vstd::slice::slice_subrange(buf, 0, n));
            Ok(n)
        },
        Err(error) => {
            assert(hash@ + Seq::<u8>::empty() == hash@);
            Err(error)
        },
    }
}

/// Wraps a sink and computes, while the bytes pass through, the digest of
/// what the sink has accepted.
#[derive(Clone)]
pub struct Writer<W, H> {
    inner: Sink<W>,
    hash: Accumulator<H>,
    seed: Ghost<Seq<u8>>,
}

impl<W, H> Writer<W, H> {
    /// The wrapped sink.
    pub closed spec fn sink(&self) -> W {
        self.inner.inner()
    }

    /// The accumulator.
    pub closed spec fn hasher(&self) -> Accumulator<H> {
        self.hash
    }

    /// The calls forwarded to the sink so far, oldest first, each with the
    /// sink's answer.
    pub closed spec fn calls(&self) -> Seq<Call> {
        self.inner@
    }

    /// What the accumulator had absorbed when the writer was made.
    pub closed spec fn seed(&self) -> Seq<u8> {
        self.seed@
    }

    /// Everything the sink has accepted through this writer, in order.
    pub open spec fn accepted(&self) -> Seq<u8> {
        accepted_by(self.calls())
    }

    /// Everything the accumulator has absorbed, in order.
    pub open spec fn absorbed(&self) -> Seq<u8> {
        self.hasher()@
    }

    /// The accumulator has absorbed what it came with, then exactly what the
    /// sink has accepted: no byte more, none less, none out of order.
    pub open spec fn synchronized(&self) -> bool {
        self.absorbed() == self.seed() + self.accepted()
    }
}

impl<W: std::io::Write, H: chksum_core::Hash> Writer<W, H> {
    /// Wraps `inner` with an accumulator in its starting state.
    pub fn new(inner: W) -> (writer: Self)
        ensures
            writer.sink() == inner,
            writer.calls() == Seq::<Call>::empty(),
            writer.seed() == Seq::<u8>::empty(),
            writer.absorbed() == Seq::<u8>::empty(),
            writer.synchronized(),
    {
        Self::with_hash(inner, Accumulator::new())
    }

    /// Wraps `inner` with the accumulator given, which goes on from the state
    /// it is in.
    pub fn with_hash(inner: W, hash: Accumulator<H>) -> (writer: Self)
        ensures
            writer.sink() == inner,
            writer.hasher() == hash,
            writer.calls() == Seq::<Call>::empty(),
            writer.seed() == hash@,
            writer.synchronized(),
    {
        let ghost seed = hash@;
        let writer = Writer { inner: Sink::new(inner), hash, seed: Ghost(seed) };
        assert(writer.seed() + writer.accepted() == writer.seed());
        writer
    }

    /// Gives the sink back. The accumulator is dropped.
    pub fn into_inner(self) -> (inner: W)
        ensures
            inner == self.sink(),
    {
        self.inner.into_inner()
    }

    /// The digest of everything absorbed so far. Neither the accumulator nor
    /// the sink is touched, so the digest can be asked for at any time.
    pub fn digest(&self) -> (digest: String) {
        self.hash.digest()
    }

    /// Offers all of `buf` to the sink, once. Where the sink accepts `n`
    /// bytes, the accumulator absorbs the first `n` bytes of `buf`; where the
    /// sink fails, the accumulator is left exactly as it was. The sink's
    /// answer is handed back as it came.
    pub fn write(&mut self, buf: &[u8]) -> (result: Result<usize, std::io::Error>)
        ensures
            final(self).calls() == old(self).calls().push(Call::Write(buf@, result)),
            result matches Ok(n) ==> n <= buf@.len(),
            final(self).accepted() == old(self).accepted() + accepted_part(buf@, result),
            final(self).absorbed() == old(self).absorbed() + accepted_part(buf@, result),
            result is Err ==> final(self).hasher() == old(self).hasher(),
            final(self).seed() == old(self).seed(),
            old(self).synchronized() ==> final(self).synchronized(),
    {
        let outcome = self.inner.write(buf);
        let result = absorb_accepted(&mut self.hash, buf, outcome);
        proof {
            lemma_accepted_by_push(old(self).calls(), Call::Write(buf@, result));
            if old(self).synchronized() {
                assert(self.seed() + (old(self).accepted() + accepted_part(buf@, result))
                    == (self.seed() + old(self).accepted()) + accepted_part(buf@, result));
            }
        }
        result
    }

    /// Asks the sink to flush, once, and hands back the sink's answer. The
    /// accumulator is left exactly as it was.
    pub fn flush(&mut self) -> (result: Result<(), std::io::Error>)
        ensures
            final(self).calls() == old(self).calls().push(Call::Flush(result)),
            final(self).accepted() == old(self).accepted(),
            final(self).hasher() == old(self).hasher(),
            final(self).seed() == old(self).seed(),
            old(self).synchronized() ==> final(self).synchronized(),
    {
        let result = self.inner.flush();
        proof {
            lemma_accepted_by_push(old(self).calls(), Call::Flush(result));
            assert(old(self).accepted() + Seq::<u8>::empty() == old(self).accepted());
        }
        result
    }
}

/// Wraps `inner` with an accumulator in its starting state.
pub fn new<W: std::io::Write, H: chksum_core::Hash>(inner: W) -> (writer: Writer<W, H>)
    ensures
        writer.sink() == inner,
        writer.calls() == Seq::<Call>::empty(),
        writer.seed() == Seq::<u8>::empty(),
        writer.absorbed() == Seq::<u8>::empty(),
        writer.synchronized(),
{
    Writer::new(inner)
}

/// Wraps `inner` with the accumulator given, which goes on from the state it
/// is in.
pub fn with_hash<W: std::io::Write, H: chksum_core::Hash>(inner: W, hash: Accumulator<H>) -> (writer:
    Writer<W, H>)
    ensures
        writer.sink() == inner,
        writer.hasher() == hash,
        writer.calls() == Seq::<Call>::empty(),
        writer.seed() == hash@,
        writer.synchronized(),
{
    Writer::with_hash(inner, hash)
}

} // verus!
