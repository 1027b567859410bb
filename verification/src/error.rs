//! The ways in which an operation of this crate can fail.

use vstd::prelude::*;

verus! {

/// Why an operation failed. Each kind is distinct, so a caller can branch on it.
#[derive(Clone, Copy, Debug, PartialEq, Eq, Structural)]
pub enum ArpError {
    /// No interface is up, not a loopback, and has an address.
    NotConnected,
    /// No interface carries the requested name.
    NotFound,
    /// The interface lacks the address that the operation needs.
    AddrNotAvailable,
    /// A received frame is too short, is neither ARP nor RARP, or carries an
    /// operation code outside 1 to 4.
    InvalidData,
    /// No matching reply arrived before the deadline.
    TimedOut,
}

} // verus!
