//! The suspendable decorator: every attempt goes to the sink first, and the
//! accumulator absorbs only once an attempt to write has completed, and then
//! exactly the bytes that the sink accepted.

use vstd::prelude::*;
use crate::accumulator::Accumulator;
use crate::async_sink::{
    accepted_by_attempts,
    completed_part,
    lemma_accepted_by_attempts_push,
    AsyncCall,
    AsyncSink,
    Attempt,
};

verus! {

/// The accumulator's half of an attempted write whose answer is known: where
/// the attempt completed with `n` bytes accepted, `hash` absorbs the first `n`
/// bytes of `buf` and nothing else; where the sink was not ready or failed,
/// `hash` is left exactly as it was. The answer is handed back as it came.
pub fn absorb_completed<H: chksum_core::Hash>(
    hash: &mut Accumulator<H>,
    buf: &[u8],
    attempt: Attempt<usize>,
) -> (result: Attempt<usize>)
    requires
        attempt matches Attempt::Completed(n) ==> n <= buf@.len(),
    ensures
        result == attempt,
        final(hash)@ == old(hash)@ + completed_part(buf@, attempt),
        !(attempt is Completed) ==> *final(hash) == *old(hash),
{
    match attempt {
        Attempt::Completed(n) => {
            hash.update(vstd::slice::slice_subrange(buf, 0, n));
            Attempt::Completed(n)
        },
        attempt => {
            assert(hash@ + Seq::<u8>::empty() == hash@);
            attempt
        },
    }
}

/// Wraps a suspendable sink and computes, while the bytes pass through, the
/// digest of what the sink has accepted.
#[derive(Clone)]
pub struct AsyncWriter<W, H> {
    inner: AsyncSink<W>,
    hash: Accumulator<H>,
    seed: Ghost<Seq<u8>>,
}

impl<W, H> AsyncWriter<W, H> {
    /// The wrapped sink.
    pub closed spec fn sink(&self) -> W {
        self.inner.inner()
    }

    /// The accumulator.
    pub closed spec fn hasher(&self) -> Accumulator<H> {
        self.hash
    }

    /// The attempts forwarded to the sink so far, oldest first, each with the
    /// sink's answer.
    pub closed spec fn calls(&self) -> Seq<AsyncCall> {
        self.inner@
    }

    /// What the accumulator had absorbed when the writer was made.
    pub closed spec fn seed(&self) -> Seq<u8> {
        self.seed@
    }

    /// Everything the sink has accepted through this writer, in order.
    pub open spec fn accepted(&self) -> Seq<u8> {
        accepted_by_attempts(self.calls())
    }

    /// Everything the accumulator has absorbed, in order.
    pub open spec fn absorbed(&self) -> Seq<u8> {
        self.hasher()@
    }

    /// The accumulator has absorbed what it came with, then exactly what the
    /// sink has accepted: no byte more, none less, none out of order.
    pub open spec fn synchronized(&self) -> bool {
        self.absorbed() == self.seed() + self.accepted()
    }
}

impl<W: tokio::io::AsyncWrite + Unpin, H: chksum_core::Hash> AsyncWriter<W, H> {
    /// Wraps `inner` with an accumulator in its starting state.
    pub fn new(inner: W) -> (writer: Self)
        ensures
            writer.sink() == inner,
            writer.calls() == Seq::<AsyncCall>::empty(),
            writer.seed() == Seq::<u8>::empty(),
            writer.absorbed() == Seq::<u8>::empty(),
            writer.synchronized(),
    {
        Self::with_hash(inner, Accumulator::new())
    }

    /// Wraps `inner` with the accumulator given, which goes on from the state
    /// it is in.
    pub fn with_hash(inner: W, hash: Accumulator<H>) -> (writer: Self)
        ensures
            writer.sink() == inner,
            writer.hasher() == hash,
            writer.calls() == Seq::<AsyncCall>::empty(),
            writer.seed() == hash@,
            writer.synchronized(),
    {
        let ghost seed = hash@;
        let writer = AsyncWriter { inner: AsyncSink::new(inner), hash, seed: Ghost(seed) };
        assert(writer.seed() + writer.accepted() == writer.seed());
        writer
    }

    /// Gives the sink back. The accumulator is dropped.
    pub fn into_inner(self) -> (inner: W)
        ensures
            inner == self.sink(),
    {
        self.inner.into_inner()
    }

    /// The digest of everything absorbed so far. Nothing is awaited and
    /// neither the accumulator nor the sink is touched, so the digest can be
    /// asked for at any time.
    pub fn digest(&self) -> (digest: String) {
        self.hash.digest()
    }

    /// Attempts once to write all of `buf` to the sink. Where the attempt
    /// completes with `n` bytes accepted, the accumulator absorbs the first
    /// `n` bytes of `buf`; where the sink is not ready or fails, the
    /// accumulator is left exactly as it was. The sink's answer is handed
    /// back as it came.
    pub fn poll_write(&mut self, cx: &mut std::task::Context<'_>, buf: &[u8]) -> (result: Attempt<
        usize,
    >)
        ensures
            final(self).calls() == old(self).calls().push(AsyncCall::Write(buf@, result)),
            result matches Attempt::Completed(n) ==> n <= buf@.len(),
            final(self).accepted() == old(self).accepted() + completed_part(buf@, result),
            final(self).absorbed() == old(self).absorbed() + completed_part(buf@, result),
            !(result is Completed) ==> final(self).hasher() == old(self).hasher(),
            final(self).seed() == old(self).seed(),
            old(self).synchronized() ==> final(self).synchronized(),
    {
        let attempt = self.inner.poll_write(cx, buf);
        let result = absorb_completed(&mut self.hash, buf, attempt);
        proof {
            lemma_accepted_by_attempts_push(old(self).calls(), AsyncCall::Write(buf@, result));
            if old(self).synchronized() {
                assert(self.seed() + (old(self).accepted() + completed_part(buf@, result))
                    == (self.seed() + old(self).accepted()) + completed_part(buf@, result));
            }
        }
        result
    }

    /// Attempts once to flush the sink, and hands back the sink's answer.
    /// The accumulator is left exactly as it was.
    pub fn poll_flush(&mut self, cx: &mut std::task::Context<'_>) -> (result: Attempt<()>)
        ensures
            final(self).calls() == old(self).calls().push(AsyncCall::Flush(result)),
            final(self).accepted() == old(self).accepted(),
            final(self).hasher() == old(self).hasher(),
            final(self).seed() == old(self).seed(),
            old(self).synchronized() ==> final(self).synchronized(),
    {
        let result = self.inner.poll_flush(cx);
        proof {
            lemma_accepted_by_attempts_push(old(self).calls(), AsyncCall::Flush(result));
            assert(old(self).accepted() + Seq::<u8>::empty() == old(self).accepted());
        }
        result
    }

    /// Attempts once to shut the sink down, and hands back the sink's answer.
    /// The accumulator is left exactly as it was.
    pub fn poll_shutdown(&mut self, cx: &mut std::task::Context<'_>) -> (result: Attempt<()>)
        ensures
            final(self).calls() == old(self).calls().push(AsyncCall::Shutdown(result)),
            final(self).accepted() == old(self).accepted(),
            final(self).hasher() == old(self).hasher(),
            final(self).seed() == old(self).seed(),
            old(self).synchronized() ==> final(self).synchronized(),
    {
        let result = self.inner.poll_shutdown(cx);
        proof {
            lemma_accepted_by_attempts_push(old(self).calls(), AsyncCall::Shutdown(result));
            assert(old(self).accepted() + Seq::<u8>::empty() == old(self).accepted());
        }
        result
    }
}

/// Wraps `inner` with an accumulator in its starting state.
pub fn async_new<W: tokio::io::AsyncWrite + Unpin, H: chksum_core::Hash>(inner: W) -> (writer:
    AsyncWriter<W, H>)
    ensures
        writer.sink() == inner,
        writer.calls() == Seq::<AsyncCall>::empty(),
        writer.seed() == Seq::<u8>::empty(),
        writer.absorbed() == Seq::<u8>::empty(),
        writer.synchronized(),
{
    AsyncWriter::new(inner)
}

/// Wraps `inner` with the accumulator given, which goes on from the state it
/// is in.
pub fn async_with_hash<W: tokio::io::AsyncWrite + Unpin, H: chksum_core::Hash>(
    inner: W,
    hash: Accumulator<H>,
) -> (writer: AsyncWriter<W, H>)
    ensures
        writer.sink() == inner,
        writer.hasher() == hash,
        writer.calls() == Seq::<AsyncCall>::empty(),
        writer.seed() == hash@,
        writer.synchronized(),
{
    AsyncWriter::with_hash(inner, hash)
}

} // verus!
