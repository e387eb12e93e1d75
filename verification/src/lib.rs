//! A pass-through writer that computes, while the bytes go by, the digest of
//! what the sink behind it has accepted.
//!
//! [`Writer`] wraps a blocking sink, [`AsyncWriter`] a suspendable one. Each
//! forwards every operation to its sink first and lets its accumulator absorb
//! exactly the bytes that the sink reported as accepted, so the digest can be
//! asked for at any time without a second pass over the data.

pub mod accumulator;
pub mod async_laws;
pub mod async_sink;
pub mod async_writer;
pub mod laws;
pub mod sink;
pub mod writer;

pub use crate::accumulator::Accumulator;
pub use crate::async_sink::Attempt;
pub use crate::async_writer::{async_new, async_with_hash, AsyncWriter};
pub use crate::writer::{new, with_hash, Writer};
