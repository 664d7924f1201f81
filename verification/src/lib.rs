use vstd::prelude::*;

pub mod channel;
pub mod listener;
pub mod request;
pub mod response;
pub mod queue;
pub mod server;
pub mod worker;

pub use crate::server::Server;

verus! {

/// Readiness interest a connection reports back to its event loop after a
/// callback: keep reading, start writing, suspend until woken, or tear the
/// connection down.
#[derive(Clone, Copy, PartialEq, Eq, Structural, Debug)]
pub enum NextAction {
    Read,
    Write,
    Wait,
    End,
}

} // verus!
