//! What users of a socket see: its kind, its errors, its callbacks.
use crate::error::{error_kind, error_text};
use crate::error::SmoltcpError;
use std::sync::Arc;
use vstd::prelude::*;

verus! {

/// The kinds of socket.
#[derive(Debug, Clone, Copy, PartialEq, Eq, Structural)]
pub enum SocketType {
    RawIpv4,
    RawIpv6,
    ICMP,
    TCP,
    UDP,
}

/// Why data could not be sent.
#[derive(Debug)]
pub enum SocketSendError {
    SocketNotReady,
    Exhausted,
    Unknown(String),
}

/// Why data could not be received.
#[derive(Debug)]
pub enum SocketReceiveError {
    SocketNotReady,
    Unknown(String),
}

/// Why a connection could not be opened.
#[derive(Debug)]
pub enum SocketConnectionError {
    Exhausted,
    Unknown(String),
}

/// A callback of type `F` that takes the octets received on a TCP socket.
pub type OnTcpSocketData<F> = Arc<F>;

/// A callback of type `F` that takes a datagram received on a UDP socket, with its sender.
pub type OnUdpSocketData<F> = Arc<F>;

/// `e` reports the error `k` of the network stack: exhaustion as itself, any other error by
/// its text.
pub open spec fn reported_send_error(k: SmoltcpError, e: SocketSendError) -> bool {
    match e {
        SocketSendError::Exhausted => k == SmoltcpError::Exhausted,
        SocketSendError::Unknown(text) => k != SmoltcpError::Exhausted && text@
            == crate::error::error_message(k),
        SocketSendError::SocketNotReady => false,
    }
}

/// `e` reports the error `k` of the network stack: exhaustion as itself, any other error by
/// its text.
pub open spec fn reported_connection_error(k: SmoltcpError, e: SocketConnectionError) -> bool {
    match e {
        SocketConnectionError::Exhausted => k == SmoltcpError::Exhausted,
        SocketConnectionError::Unknown(text) => k != SmoltcpError::Exhausted && text@
            == crate::error::error_message(k),
    }
}

/// An error is reported as exhaustion exactly where it is, and any other by its own text.
pub proof fn lemma_reported_errors(
    k: SmoltcpError,
    send: SocketSendError,
    connection: SocketConnectionError,
)
    requires
        reported_send_error(k, send),
        reported_connection_error(k, connection),
    ensures
        send is Exhausted <==> k is Exhausted,
        connection is Exhausted <==> k is Exhausted,
        k is Illegal ==> (send matches SocketSendError::Unknown(text) && text@
            == "illegal operation"@),
        k is Unaddressable ==> (send matches SocketSendError::Unknown(text) && text@
            == "unaddressable destination"@),
        k is Truncated ==> (send matches SocketSendError::Unknown(text) && text@
            == "truncated packet"@),
        k is Illegal ==> (connection matches SocketConnectionError::Unknown(text) && text@
            == "illegal operation"@),
        k is Unaddressable ==> (connection matches SocketConnectionError::Unknown(text) && text@
            == "unaddressable destination"@),
{
}

impl From<smoltcp::Error> for SocketSendError {
    fn from(e: smoltcp::Error) -> (r: SocketSendError)
        ensures
            reported_send_error(crate::error::error_kind_of(e), r),
    {
        match error_kind(e) {
            SmoltcpError::Exhausted => SocketSendError::Exhausted,
            _ => SocketSendError::Unknown(error_text(e)),
        }
    }
}

impl vstd::std_specs::convert::FromSpecImpl<smoltcp::Error> for SocketSendError {
    open spec fn obeys_from_spec() -> bool {
        false
    }

    open spec fn from_spec(e: smoltcp::Error) -> SocketSendError {
        choose|r: SocketSendError| reported_send_error(crate::error::error_kind_of(e), r)
    }
}

impl From<smoltcp::Error> for SocketConnectionError {
    fn from(e: smoltcp::Error) -> (r: SocketConnectionError)
        ensures
            reported_connection_error(crate::error::error_kind_of(e), r),
    {
        match error_kind(e) {
            SmoltcpError::Exhausted => SocketConnectionError::Exhausted,
            _ => SocketConnectionError::Unknown(error_text(e)),
        }
    }
}

impl vstd::std_specs::convert::FromSpecImpl<smoltcp::Error> for SocketConnectionError {
    open spec fn obeys_from_spec() -> bool {
        false
    }

    open spec fn from_spec(e: smoltcp::Error) -> SocketConnectionError {
        choose|r: SocketConnectionError|
            reported_connection_error(crate::error::error_kind_of(e), r)
    }
}

} // verus!
