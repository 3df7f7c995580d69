//! Records of the calls of callbacks.
//!
//! A record grows only by what a call leaves behind (`Given`, `GivenFrom`, `Filled`), and that
//! names the function that was called.
use crate::addr::IpAddr;
use crate::sockets::handover::{Given, GivenFrom};
use crate::virtual_tun::blank::Filled;
use crate::virtual_tun::VirtualTunReadError;
use smoltcp::socket::SocketHandle;
use vstd::prelude::*;

verus! {

/// The callback `on` of a TCP socket was handed `octets`.
pub struct TcpCall<T> {
    pub on: T,
    pub octets: Seq<u8>,
}

/// The callback `on` of a UDP socket was handed `payload` as a datagram from `addr` and `port`.
pub struct UdpCall<U> {
    pub on: U,
    pub payload: Seq<u8>,
    pub addr: IpAddr,
    pub port: u16,
}

/// The reading callback `on` was handed a buffer that held `before`; it left `filled` in it and
/// said `said`.
pub struct ReadCall<R> {
    pub on: R,
    pub before: Seq<u8>,
    pub filled: Seq<u8>,
    pub said: Result<usize, VirtualTunReadError>,
}

/// The calls made for the socket with the handle `handle`.
pub open spec fn calls_of<C>(calls: Map<SocketHandle, Seq<C>>, handle: SocketHandle) -> Seq<C> {
    if calls.contains_key(handle) {
        calls[handle]
    } else {
        Seq::empty()
    }
}

/// The calls of the callbacks of TCP sockets, by the handles of these.
pub struct TcpCalls<T> {
    made: Ghost<Map<SocketHandle, Seq<TcpCall<T>>>>,
}

/// The calls of the callbacks of UDP sockets, by the handles of these.
pub struct UdpCalls<U> {
    made: Ghost<Map<SocketHandle, Seq<UdpCall<U>>>>,
}

/// The calls of a reading callback.
pub struct ReadCalls<R> {
    made: Ghost<Seq<ReadCall<R>>>,
}

impl<T> View for TcpCalls<T> {
    type V = Map<SocketHandle, Seq<TcpCall<T>>>;

    closed spec fn view(&self) -> Map<SocketHandle, Seq<TcpCall<T>>> {
        self.made@
    }
}

impl<U> View for UdpCalls<U> {
    type V = Map<SocketHandle, Seq<UdpCall<U>>>;

    closed spec fn view(&self) -> Map<SocketHandle, Seq<UdpCall<U>>> {
        self.made@
    }
}

impl<R> View for ReadCalls<R> {
    type V = Seq<ReadCall<R>>;

    closed spec fn view(&self) -> Seq<ReadCall<R>> {
        self.made@
    }
}

impl<T> TcpCalls<T> {
    /// No calls.
    pub fn none() -> (r: Self)
        ensures
            r@ == Map::<SocketHandle, Seq<TcpCall<T>>>::empty(),
    {
        TcpCalls { made: Ghost(Map::empty()) }
    }

    /// Enters that the callback of the socket with the handle `handle` was handed octets, and
    /// returns what it answered.
    pub fn record<A>(&mut self, handle: SocketHandle, given: Given<&T, A>) -> (r: A)
        ensures
            final(self)@ == old(self)@.insert(
                handle,
                calls_of(old(self)@, handle).push(
                    (TcpCall { on: *given.function(), octets: given.octets() }),
                ),
            ),
            r == given.answer(),
    {
        proof {
            self.made@ = self.made@.insert(
                handle,
                calls_of(self.made@, handle).push(
                    TcpCall { on: *given.function(), octets: given.octets() },
                ),
            );
        }
        given.into_answer()
    }
}

impl<U> UdpCalls<U> {
    /// No calls.
    pub fn none() -> (r: Self)
        ensures
            r@ == Map::<SocketHandle, Seq<UdpCall<U>>>::empty(),
    {
        UdpCalls { made: Ghost(Map::empty()) }
    }

    /// Enters that the callback of the socket with the handle `handle` was handed a datagram,
    /// and returns what it answered.
    pub fn record<A>(&mut self, handle: SocketHandle, given: GivenFrom<&U, A>) -> (r: A)
        ensures
            final(self)@ == old(self)@.insert(
                handle,
                calls_of(old(self)@, handle).push(
                    (UdpCall {
                        on: *given.function(),
                        payload: given.octets(),
                        addr: given.addr(),
                        port: given.port(),
                    }),
                ),
            ),
            r == given.answer(),
    {
        proof {
            self.made@ = self.made@.insert(
                handle,
                calls_of(self.made@, handle).push(
                    UdpCall {
                        on: *given.function(),
                        payload: given.octets(),
                        addr: given.addr(),
                        port: given.port(),
                    },
                ),
            );
        }
        given.into_answer()
    }
}

impl<R> ReadCalls<R> {
    /// No calls.
    pub fn none() -> (r: Self)
        ensures
            r@ == Seq::<ReadCall<R>>::empty(),
    {
        ReadCalls { made: Ghost(Seq::empty()) }
    }

    /// Enters that the callback was handed a buffer, and returns the buffer as it was left and
    /// what the callback said.
    pub fn record(&mut self, filled: Filled<&R, Result<usize, VirtualTunReadError>>) -> (r: (
        Vec<u8>,
        Result<usize, VirtualTunReadError>,
    ))
        ensures
            final(self)@ == old(self)@.push(
                (ReadCall {
                    on: *filled.function(),
                    before: filled.before(),
                    filled: r.0@,
                    said: r.1,
                }),
            ),
            r.0@ == filled.octets(),
            r.1 == filled.answer(),
    {
        proof {
            self.made@ = self.made@.push(
                ReadCall {
                    on: *filled.function(),
                    before: filled.before(),
                    filled: filled.octets(),
                    said: filled.answer(),
                },
            );
        }
        filled.into_parts()
    }
}

} // verus!
