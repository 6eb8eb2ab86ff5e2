//! What the poller reports about a registered descriptor.

use vstd::prelude::*;

verus! {

/// The direction in which an operation wants the descriptor to be ready.
#[derive(Clone, Copy, PartialEq, Eq, Debug, Structural)]
pub enum Interest {
    /// Ready to hand out a received payload.
    Readable,
    /// Ready to take a payload for sending.
    Writable,
}

/// The poller's answer to a wait for readiness.
///
/// `Ready` is a hint: the call it allows may still come back as would-block.
#[derive(Debug)]
pub enum Readiness {
    /// The descriptor is not ready; the poller will wake the task later.
    Pending,
    /// The descriptor was seen ready; a guard for one attempt is now held.
    Ready,
    /// The poller itself failed.
    Failed(std::io::Error),
}

} // verus!
