//! A suspendable byte sink and the record of what it was asked and what it
//! answered.

use vstd::prelude::*;

verus! {

/// `std::task::Context`: the context of the task that drives the sink,
/// handed on to the sink as it came and never looked into.
#[verifier::external_type_specification]
#[verifier::external_body]
pub struct ExContext<'a>(std::task::Context<'a>);

/// What one attempt at a suspendable operation came to.
#[derive(Debug)]
pub enum Attempt<T> {
    /// The sink is not ready: nothing was done, and the operation is to be
    /// tried again later.
    Pending,
    /// The operation is done, with this result.
    Completed(T),
    /// The sink failed, with this error.
    Failed(std::io::Error),
}

/// One operation that a suspendable sink was asked to attempt, with the
/// answer it gave.
pub enum AsyncCall {
    /// An attempt to write the given bytes.
    Write(Seq<u8>, Attempt<usize>),
    /// An attempt to flush.
    Flush(Attempt<()>),
    /// An attempt to shut down.
    Shutdown(Attempt<()>),
}

/// The bytes of `buf` that an attempted write put into the sink: the first
/// `n` where the attempt completed with `n` accepted, none where the sink was
/// not ready or failed.
pub open spec fn completed_part(buf: Seq<u8>, attempt: Attempt<usize>) -> Seq<u8> {
    match attempt {
        Attempt::Completed(n) => buf.subrange(0, n as int),
        Attempt::Pending => Seq::<u8>::empty(),
        Attempt::Failed(_) => Seq::<u8>::empty(),
    }
}

impl AsyncCall {
    /// The bytes that this one attempt put into the sink.
    pub open spec fn accepted(self) -> Seq<u8> {
        match self {
            AsyncCall::Write(buf, attempt) => completed_part(buf, attempt),
            AsyncCall::Flush(_) => Seq::<u8>::empty(),
            AsyncCall::Shutdown(_) => Seq::<u8>::empty(),
        }
    }

    /// Whether this attempt is a write that went through to the end: the only
    /// kind that can put bytes into the sink.
    pub open spec fn is_completed_write(self) -> bool {
        self matches AsyncCall::Write(_, Attempt::Completed(_))
    }
}

/// Everything that a sink accepted over a history of attempts, in call order.
pub open spec fn accepted_by_attempts(calls: Seq<AsyncCall>) -> Seq<u8>
    decreases calls.len(),
{
    if calls.len() == 0 {
        Seq::<u8>::empty()
    } else {
        accepted_by_attempts(calls.drop_last()) + calls.last().accepted()
    }
}

/// One more attempt adds what that attempt put into the sink, after what was
/// there.
pub proof fn lemma_accepted_by_attempts_push(calls: Seq<AsyncCall>, call: AsyncCall)
    ensures
        accepted_by_attempts(calls.push(call)) == accepted_by_attempts(calls) + call.accepted(),
{
    assert(calls.push(call).drop_last() == calls);
}

/// `tokio::io::AsyncWrite::poll_write` on `inner`, pinned in place, given `cx`
/// and all of `buf`. The answer is the sink's own, variant for variant. The
/// one thing taken on trust is what the trait demands of every
/// implementation: a count that is reported as accepted never exceeds the
/// length of the buffer that was offered.
#[verifier::external_body]
fn tokio_poll_write<W: tokio::io::AsyncWrite + Unpin>(
    inner: &mut W,
    cx: &mut std::task::Context<'_>,
    buf: &[u8],
) -> (attempt: Attempt<usize>)
    ensures
        attempt matches Attempt::Completed(n) ==> n <= buf@.len(),
{
    match std::pin::Pin::new(inner).poll_write(cx, buf) {
        std::task::Poll::Pending => Attempt::Pending,
        std::task::Poll::Ready(Ok(n)) => Attempt::Completed(n),
        std::task::Poll::Ready(Err(error)) => Attempt::Failed(error),
    }
}

/// `tokio::io::AsyncWrite::poll_flush` on `inner`, pinned in place, given
/// `cx`. The answer is the sink's own, variant for variant; nothing is
/// claimed of it.
#[verifier::external_body]
fn tokio_poll_flush<W: tokio::io::AsyncWrite + Unpin>(
    inner: &mut W,
    cx: &mut std::task::Context<'_>,
) -> (attempt: Attempt<()>) {
    match std::pin::Pin::new(inner).poll_flush(cx) {
        std::task::Poll::Pending => Attempt::Pending,
        std::task::Poll::Ready(Ok(())) => Attempt::Completed(()),
        std::task::Poll::Ready(Err(error)) => Attempt::Failed(error),
    }
}

/// `tokio::io::AsyncWrite::poll_shutdown` on `inner`, pinned in place, given
/// `cx`. The answer is the sink's own, variant for variant; nothing is
/// claimed of it.
#[verifier::external_body]
fn tokio_poll_shutdown<W: tokio::io::AsyncWrite + Unpin>(
    inner: &mut W,
    cx: &mut std::task::Context<'_>,
) -> (attempt: Attempt<()>) {
    match std::pin::Pin::new(inner).poll_shutdown(cx) {
        std::task::Poll::Pending => Attempt::Pending,
        std::task::Poll::Ready(Ok(())) => Attempt::Completed(()),
        std::task::Poll::Ready(Err(error)) => Attempt::Failed(error),
    }
}

/// A suspendable byte sink together with the history of the attempts made on
/// it through this value.
#[derive(Clone)]
pub struct AsyncSink<W> {
    inner: W,
    calls: Ghost<Seq<AsyncCall>>,
}

impl<W> AsyncSink<W> {
    /// The attempts made so far, oldest first, each with the sink's answer.
    pub closed spec fn view(&self) -> Seq<AsyncCall> {
        self.calls@
    }

    /// The sink that the attempts go to.
    pub closed spec fn inner(&self) -> W {
        self.inner
    }
}

impl<W: tokio::io::AsyncWrite + Unpin> AsyncSink<W> {
    /// Takes `inner` as it is, with an empty history.
    pub fn new(inner: W) -> (sink: Self)
        ensures
            sink@ == Seq::<AsyncCall>::empty(),
            sink.inner() == inner,
    {
        AsyncSink { inner, calls: Ghost(Seq::empty()) }
    }

    /// Attempts once to write all of `buf`, and hands back the sink's answer.
    pub fn poll_write(&mut self, cx: &mut std::task::Context<'_>, buf: &[u8]) -> (attempt: Attempt<
        usize,
    >)
        ensures
            attempt matches Attempt::Completed(n) ==> n <= buf@.len(),
            final(self)@ == old(self)@.push(AsyncCall::Write(buf@, attempt)),
    {
        let attempt = tokio_poll_write(&mut self.inner, cx, buf);
        self.calls = Ghost(self.calls@.push(AsyncCall::Write(buf@, attempt)));
        attempt
    }

    /// Attempts once to flush, and hands back the sink's answer.
    pub fn poll_flush(&mut self, cx: &mut std::task::Context<'_>) -> (attempt: Attempt<()>)
        ensures
            final(self)@ == old(self)@.push(AsyncCall::Flush(attempt)),
    {
        let attempt = tokio_poll_flush(&mut self.inner, cx);
        self.calls = Ghost(self.calls@.push(AsyncCall::Flush(attempt)));
        attempt
    }

    /// Attempts once to shut down, and hands back the sink's answer.
    pub fn poll_shutdown(&mut self, cx: &mut std::task::Context<'_>) -> (attempt: Attempt<()>)
        ensures
            final(self)@ == old(self)@.push(AsyncCall::Shutdown(attempt)),
    {
        let attempt = tokio_poll_shutdown(&mut self.inner, cx);
        self.calls = Ghost(self.calls@.push(AsyncCall::Shutdown(attempt)));
        attempt
    }

    /// Gives the sink back and drops the history.
    pub fn into_inner(self) -> (inner: W)
        ensures
            inner == self.inner(),
    {
        self.inner
    }
}

} // verus!
