//! The errors of the network stack, seen from outside it.
use vstd::prelude::*;

verus! {

/// The error type of `smoltcp`, carried as it came.
#[verifier::external_type_specification]
#[verifier::external_body]
pub struct ExError(smoltcp::Error);

/// What went wrong inside the network stack: the variants of `smoltcp::Error`.
#[derive(Debug, Clone, Copy, PartialEq, Eq, Structural)]
pub enum SmoltcpError {
    /// A buffer is empty or full.
    Exhausted,
    /// The operation is not permitted in the current state.
    Illegal,
    /// An address could not be resolved, or names no host.
    Unaddressable,
    /// There is no more to read.
    Finished,
    /// A packet is shorter or longer than it may be.
    Truncated,
    /// A packet had a wrong checksum.
    Checksum,
    /// A packet was of no known kind.
    Unrecognized,
    /// A packet came in fragments.
    Fragmented,
    /// A packet contradicted itself.
    Malformed,
    /// A packet contradicted the state of the stack.
    Dropped,
}

/// The variant that an error of the network stack holds.
pub uninterp spec fn error_kind_of(e: smoltcp::Error) -> SmoltcpError;

/// Tells the variants of `smoltcp::Error` apart, one for one.
#[verifier::external_body]
pub(crate) fn error_kind(e: smoltcp::Error) -> (k: SmoltcpError)
    ensures
        k == error_kind_of(e),
{
    match e {
        smoltcp::Error::Exhausted => SmoltcpError::Exhausted,
        smoltcp::Error::Illegal => SmoltcpError::Illegal,
        smoltcp::Error::Unaddressable => SmoltcpError::Unaddressable,
        smoltcp::Error::Finished => SmoltcpError::Finished,
        smoltcp::Error::Truncated => SmoltcpError::Truncated,
        smoltcp::Error::Checksum => SmoltcpError::Checksum,
        smoltcp::Error::Unrecognized => SmoltcpError::Unrecognized,
        smoltcp::Error::Fragmented => SmoltcpError::Fragmented,
        smoltcp::Error::Malformed => SmoltcpError::Malformed,
        _ => SmoltcpError::Dropped,
    }
}

/// The text that an error of the network stack is shown as.
pub open spec fn error_message(k: SmoltcpError) -> Seq<char> {
    match k {
        SmoltcpError::Exhausted => "buffer space exhausted"@,
        SmoltcpError::Illegal => "illegal operation"@,
        SmoltcpError::Unaddressable => "unaddressable destination"@,
        SmoltcpError::Finished => "operation finished"@,
        SmoltcpError::Truncated => "truncated packet"@,
        SmoltcpError::Checksum => "checksum error"@,
        SmoltcpError::Unrecognized => "unrecognized packet"@,
        SmoltcpError::Fragmented => "fragmented packet"@,
        SmoltcpError::Malformed => "malformed packet"@,
        SmoltcpError::Dropped => "dropped by socket"@,
    }
}

/// Calls the `Display` impl of `smoltcp::Error`, which writes one fixed text for each
/// variant.
#[verifier::external_body]
pub(crate) fn error_text(e: smoltcp::Error) -> (text: String)
    ensures
        text@ == error_message(error_kind_of(e)),
{
    format!("{}", e)
}

} // verus!
