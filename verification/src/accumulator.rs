//! An incremental hash accumulator and the record of what it has absorbed.

use vstd::prelude::*;

verus! {

/// `chksum_core::default`: an accumulator in the state that its type starts
/// from. Nothing is claimed of the value.
#[verifier::external_body]
fn core_default<H: chksum_core::Hash>() -> (hash: H) {
    chksum_core::default::<H>()
}

/// `chksum_core::Hash::update` on `hash`, given all of `data`. Nothing is
/// claimed of the state that `hash` is left in.
#[verifier::external_body]
fn core_update<H: chksum_core::Hash>(hash: &mut H, data: &[u8]) {
    hash.update(data)
}

/// `chksum_core::Hash::digest` on `hash`, written out the way the digest
/// displays itself. Nothing is claimed of the text.
#[verifier::external_body]
fn core_digest<H: chksum_core::Hash>(hash: &H) -> (digest: String) {
    format!("{}", hash.digest())
}

/// A hash accumulator together with the record of the bytes handed to it
/// through this value.
#[derive(Clone)]
pub struct Accumulator<H> {
    hash: H,
    absorbed: Ghost<Seq<u8>>,
}

impl<H> Accumulator<H> {
    /// Every byte absorbed since the record began, in order.
    pub closed spec fn view(&self) -> Seq<u8> {
        self.absorbed@
    }

    /// The accumulator that does the hashing.
    pub closed spec fn hash(&self) -> H {
        self.hash
    }
}

impl<H: chksum_core::Hash> Accumulator<H> {
    /// An accumulator in its starting state, which has absorbed nothing.
    pub fn new() -> (hash: Self)
        ensures
            hash@ == Seq::<u8>::empty(),
    {
        Accumulator { hash: core_default::<H>(), absorbed: Ghost(Seq::empty()) }
    }

    /// Takes over an accumulator in whatever state it is in. The record
    /// begins here: what `hash` absorbed before is not part of it.
    pub fn from_hash(hash: H) -> (taken: Self)
        ensures
            taken.hash() == hash,
            taken@ == Seq::<u8>::empty(),
    {
        Accumulator { hash, absorbed: Ghost(Seq::empty()) }
    }

    /// Absorbs all of `data`, after everything absorbed before.
    pub fn update(&mut self, data: &[u8])
        ensures
            final(self)@ == old(self)@ + data@,
    {
        core_update(&mut self.hash, data);
        self.absorbed = Ghost(self.absorbed@ + data@);
    }

    /// The digest of the accumulator as it stands, in the text form that the
    /// digest displays itself in. The accumulator is read, not changed.
    pub fn digest(&self) -> (digest: String) {
        core_digest(&self.hash)
    }
}

} // verus!
