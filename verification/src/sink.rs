//! A blocking byte sink and the record of what it was asked and what it answered.

use vstd::prelude::*;

verus! {

/// `std::io::Error`: the error of a sink, carried through as it came and
/// never looked into.
#[verifier::external_type_specification]
#[verifier::external_body]
pub struct ExIoError(std::io::Error);

/// One operation that a blocking sink was asked for, with the answer it gave.
pub enum Call {
    /// A write of the given bytes, answered by a count of accepted bytes or by an error.
    Write(Seq<u8>, Result<usize, std::io::Error>),
    /// A flush, answered by success or by an error.
    Flush(Result<(), std::io::Error>),
}

/// The bytes of `buf` that a write with the given outcome put into the sink:
/// the first `n` where the sink reported `n` accepted, none where it failed.
pub open spec fn accepted_part(buf: Seq<u8>, outcome: Result<usize, std::io::Error>) -> Seq<u8> {
    match outcome {
        Ok(n) => buf.subrange(0, n as int),
        Err(_) => Seq::<u8>::empty(),
    }
}

impl Call {
    /// The bytes that this one call put into the sink.
    pub open spec fn accepted(self) -> Seq<u8> {
        match self {
            Call::Write(buf, outcome) => accepted_part(buf, outcome),
            Call::Flush(_) => Seq::<u8>::empty(),
        }
    }

    /// Whether this call is a write.
    pub open spec fn is_write(self) -> bool {
        self is Write
    }
}

/// Everything that a sink accepted over a history of calls, in call order.
pub open spec fn accepted_by(calls: Seq<Call>) -> Seq<u8>
    decreases calls.len(),
{
    if calls.len() == 0 {
        Seq::<u8>::empty()
    } else {
        accepted_by(calls.drop_last()) + calls.last().accepted()
    }
}

/// One more call adds what that call put into the sink, after what was there.
pub proof fn lemma_accepted_by_push(calls: Seq<Call>, call: Call)
    ensures
        accepted_by(calls.push(call)) == accepted_by(calls) + call.accepted(),
{
    assert(calls.push(call).drop_last() == calls);
}

/// `std::io::Write::write` on `inner`, given all of `buf`. The answer is the
/// sink's own. The one thing taken on trust is what the trait demands of every
/// implementation: a count that is reported as accepted never exceeds the
/// length of the buffer that was offered.
#[verifier::external_body]
fn io_write<W: std::io::Write>(inner: &mut W, buf: &[u8]) -> (outcome: Result<usize, std::io::Error>)
    ensures
        outcome matches Ok(n) ==> n <= buf@.len(),
{
    inner.write(buf)
}

/// `std::io::Write::flush` on `inner`. Nothing is claimed of the answer.
#[verifier::external_body]
fn io_flush<W: std::io::Write>(inner: &mut W) -> (outcome: Result<(), std::io::Error>) {
    inner.flush()
}

/// A blocking byte sink together with the history of the calls made to it
/// through this value.
#[derive(Clone)]
pub struct Sink<W> {
    inner: W,
    calls: Ghost<Seq<Call>>,
}

impl<W> Sink<W> {
    /// The calls made so far, oldest first, each with the sink's answer.
    pub closed spec fn view(&self) -> Seq<Call> {
        self.calls@
    }

    /// The sink that the calls go to.
    pub closed spec fn inner(&self) -> W {
        self.inner
    }
}

impl<W: std::io::Write> Sink<W> {
    /// Takes `inner` as it is, with an empty history.
    pub fn new(inner: W) -> (sink: Self)
        ensures
            sink@ == Seq::<Call>::empty(),
            sink.inner() == inner,
    {
        Sink { inner, calls: Ghost(Seq::empty()) }
    }

    /// Offers all of `buf` to the sink, once, and hands back the sink's answer.
    pub fn write(&mut self, buf: &[u8]) -> (outcome: Result<usize, std::io::Error>)
        ensures
            outcome matches Ok(n) ==> n <= buf@.len(),
            final(self)@ == old(self)@.push(Call::Write(buf@, outcome)),
    {
        let outcome = io_write(&mut self.inner, buf);
        self.calls = Ghost(self.calls@.push(Call::Write(buf@, outcome)));
        outcome
    }

    /// Asks the sink to flush, once, and hands back the sink's answer.
    pub fn flush(&mut self) -> (outcome: Result<(), std::io::Error>)
        ensures
            final(self)@ == old(self)@.push(Call::Flush(outcome)),
    {
        let outcome = io_flush(&mut self.inner);
        self.calls = Ghost(self.calls@.push(Call::Flush(outcome)));
        outcome
    }

    /// Gives the sink back and drops the history.
    pub fn into_inner(self) -> (inner: W)
        ensures
            inner == self.inner(),
    {
        self.inner
    }
}

} // verus!
