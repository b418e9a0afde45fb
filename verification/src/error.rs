use vstd::prelude::*;

verus! {

/// Why a decode or a command was given up.
#[derive(Clone, Copy, Debug, PartialEq, Eq, Structural)]
pub enum WirelessError {
    /// A payload is shorter or longer than the value asked of it, or a
    /// structure ends before the fields it announces.
    Malformed,
    /// A record lacks a field that it cannot do without.
    NotFound,
    /// A command names no device to act on.
    NoInterfaceIdentifier,
    /// The kernel refused a request, with this error number.
    Refused(i32),
}

} // verus!
