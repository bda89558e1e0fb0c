//! Error taxonomy for the datagram endpoint.
//!
//! The endpoint itself (a UDP socket) lives outside this crate; the caller
//! hands the library the operating-system error *kind* as a plain value, and
//! the fatal/transient classification — which the role engines' retry loops
//! branch on — is verified here.

use vstd::prelude::*;

verus! {

/// The kind of an operating-system I/O error, as far as the protocol cares:
/// the three kinds that mean "no message this tick", and everything else.
#[derive(Clone, Copy, Debug, PartialEq, Eq)]
pub enum IoErrorKind {
    WouldBlock,
    TimedOut,
    Interrupted,
    Other,
}

/// Why a send failed.
#[derive(Clone, Copy, Debug, PartialEq, Eq)]
pub enum SendError {
    /// The message could not be serialized (payload over its bound).
    SerializationFailed,
    /// The operating system reported an error.
    IO(IoErrorKind),
    /// Fewer bytes than the datagram were sent; carries the count actually
    /// sent.  Distinct because it violates UDP datagram semantics.
    IncompleteSend(usize),
}

/// Why a receive failed.
#[derive(Clone, Copy, Debug, PartialEq, Eq)]
pub enum ReceiveError {
    /// The datagram did not decode to any protocol message.  Malformed
    /// datagrams are dropped silently and serving continues: robustness on
    /// an open UDP port demands that no received bytes can stop a loop.
    DeserializationFailed,
    /// The operating system reported an error.
    IO(IoErrorKind),
}

/// A receive error is fatal exactly when it is an I/O error of a kind other
/// than would-block, timed-out, or interrupted.  A decode failure is
/// transient: the malformed datagram is dropped and the loop continues.
pub open spec fn is_fatal_spec(e: ReceiveError) -> bool {
    match e {
        ReceiveError::DeserializationFailed => false,
        ReceiveError::IO(IoErrorKind::WouldBlock) => false,
        ReceiveError::IO(IoErrorKind::TimedOut) => false,
        ReceiveError::IO(IoErrorKind::Interrupted) => false,
        ReceiveError::IO(IoErrorKind::Other) => true,
    }
}

impl ReceiveError {
    /// Classify the error: transient errors mean "no message this tick,
    /// retry the receive"; fatal ones abort the running operation.
    pub fn is_fatal(&self) -> (r: bool)
        ensures
            r == is_fatal_spec(*self),
    {
        match self {
            ReceiveError::DeserializationFailed => false,
            ReceiveError::IO(io_err) => match io_err {
                IoErrorKind::WouldBlock => false,
                IoErrorKind::TimedOut => false,
                IoErrorKind::Interrupted => false,
                IoErrorKind::Other => true,
            },
        }
    }
}

} // verus!
