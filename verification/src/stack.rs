//! The network stack: its sockets, their callbacks, and the device that it runs on.
use crate::addr::{IpAddr, SocketAddr};
use crate::calls::{TcpCall, TcpCalls, UdpCall, UdpCalls};
use crate::handle_map::HandleMap;
use crate::socket::{OnTcpSocketData, OnUdpSocketData, SocketConnectionError};
use crate::socket::{SocketReceiveError, SocketSendError, SocketType};
use crate::sockets::{add_tcp, add_udp, new_socket_set, take_datagram, take_piece, tcp_can_recv};
use crate::sockets::{tcp_connect, tcp_send, udp_can_recv, udp_send};
use crate::sockets::{SocketState, TcpSocketState, UdpDatagram, UdpSocketState};
use smoltcp::socket::{SocketHandle, SocketSet};
use std::sync::Arc;
use vstd::prelude::*;

verus! {

/// The size of each buffer of a TCP socket.
pub const TCP_BUFFER_SIZE: usize = 65000;

/// The size of each payload buffer of a UDP socket.
pub const UDP_BUFFER_SIZE: usize = 1024;

/// How many datagrams each ring of a UDP socket holds.
pub const UDP_PACKET_SLOTS: usize = 0;

/// Why a call that waits for the next poll failed.
#[derive(Debug, Clone, Copy, PartialEq, Eq, Structural)]
pub enum PollWaitError {
    NoPollWait,
}

/// Why received data could not be handed to its callback.
#[derive(Debug)]
pub enum SpinError {
    NoCallback,
    NoSocket,
    Unknown(String),
}

/// Hands `arg` to `f`.
pub fn __feed__<T, R>(arg: T, f: impl FnOnce(T) -> R) -> (r: R)
    requires
        call_requires(f, (arg,)),
    ensures
        call_ensures(f, (arg,), r),
{
    f(arg)
}

/// The callbacks of a socket: of type `T` for TCP, of type `U` for UDP.
pub struct OnSocketData<T, U> {
    pub on_tcp: Option<OnTcpSocketData<T>>,
    pub on_udp: Option<OnUdpSocketData<U>>,
}

impl<T, U> OnSocketData<T, U> {
    pub fn tcp(t: Option<OnTcpSocketData<T>>) -> (r: OnSocketData<T, U>)
        ensures
            r == (OnSocketData::<T, U> { on_tcp: t, on_udp: None }),
    {
        OnSocketData { on_tcp: t, on_udp: None }
    }

    pub fn udp(t: Option<OnUdpSocketData<U>>) -> (r: OnSocketData<T, U>)
        ensures
            r == (OnSocketData::<T, U> { on_tcp: None, on_udp: t }),
    {
        OnSocketData { on_tcp: None, on_udp: t }
    }

    pub fn none() -> (r: OnSocketData<T, U>)
        ensures
            r == (OnSocketData::<T, U> { on_tcp: None, on_udp: None }),
    {
        OnSocketData { on_tcp: None, on_udp: None }
    }
}

/// A network stack over an interface of type `DeviceT`, with callbacks of types `T` and `U`
/// and queues of waiting tasks of type `Q`.
pub struct SmolStack<DeviceT, T, U, Q> {
    pub sockets: SocketSet<'static>,
    pub interface: DeviceT,
    socket_handles: HandleMap<(SocketType, OnSocketData<T, U>)>,
    should_stack_thread_stop: bool,
    read_wake_deque: Option<Arc<Q>>,
    write_wake_deque: Option<Arc<Q>>,
    tcp_calls: TcpCalls<T>,
    udp_calls: UdpCalls<U>,
}

/// What a network stack holds, apart from its interface.
#[verifier::ext_equal]
pub struct StackState<T, U, Q> {
    /// The sockets, by their handles.
    pub sockets: Map<SocketHandle, SocketState>,
    /// Whether the set of sockets grows as sockets are added.
    pub grows: bool,
    /// The callbacks of the sockets that are served when the stack is spun.
    pub handlers: Map<SocketHandle, (SocketType, OnSocketData<T, U>)>,
    /// Whether the thread that serves the stack is to stop.
    pub stop: bool,
    pub read_wake_deque: Option<Arc<Q>>,
    pub write_wake_deque: Option<Arc<Q>>,
    /// The calls of callbacks of TCP sockets that were made so far, by the sockets' handles.
    pub tcp_calls: Map<SocketHandle, Seq<TcpCall<T>>>,
    /// The calls of callbacks of UDP sockets that were made so far, by the sockets' handles.
    pub udp_calls: Map<SocketHandle, Seq<UdpCall<U>>>,
}

impl<T, U, Q> StackState<T, U, Q> {
    /// A stack that was just made: no sockets, no callbacks, not to stop.
    pub open spec fn fresh(read: Option<Arc<Q>>, write: Option<Arc<Q>>) -> StackState<T, U, Q> {
        StackState {
            sockets: Map::empty(),
            grows: true,
            handlers: Map::empty(),
            stop: false,
            read_wake_deque: read,
            write_wake_deque: write,
            tcp_calls: Map::empty(),
            udp_calls: Map::empty(),
        }
    }

    /// The stack with the sockets `sockets` in place of its own.
    pub open spec fn with_sockets(self, sockets: Map<SocketHandle, SocketState>) -> StackState<
        T,
        U,
        Q,
    > {
        StackState { sockets, ..self }
    }

    /// The stack with the socket `socket` under the handle `handle`.
    pub open spec fn with_socket(self, handle: SocketHandle, socket: SocketState) -> StackState<
        T,
        U,
        Q,
    > {
        self.with_sockets(self.sockets.insert(handle, socket))
    }

    /// The stack with `calls` as the calls of callbacks of TCP sockets.
    pub open spec fn with_tcp_calls(
        self,
        calls: Map<SocketHandle, Seq<TcpCall<T>>>,
    ) -> StackState<T, U, Q> {
        StackState { tcp_calls: calls, ..self }
    }

    /// The stack with `calls` as the calls of callbacks of UDP sockets.
    pub open spec fn with_udp_calls(
        self,
        calls: Map<SocketHandle, Seq<UdpCall<U>>>,
    ) -> StackState<T, U, Q> {
        StackState { udp_calls: calls, ..self }
    }

    /// The calls made for the TCP socket with the handle `handle`.
    pub open spec fn tcp_calls_of(self, handle: SocketHandle) -> Seq<TcpCall<T>> {
        crate::calls::calls_of(self.tcp_calls, handle)
    }

    /// The calls made for the UDP socket with the handle `handle`.
    pub open spec fn udp_calls_of(self, handle: SocketHandle) -> Seq<UdpCall<U>> {
        crate::calls::calls_of(self.udp_calls, handle)
    }

    pub open spec fn has_tcp(self, handle: SocketHandle) -> bool {
        crate::sockets::is_tcp(self.sockets, handle)
    }

    pub open spec fn has_udp(self, handle: SocketHandle) -> bool {
        crate::sockets::is_udp(self.sockets, handle)
    }

    pub open spec fn tcp(self, handle: SocketHandle) -> TcpSocketState {
        crate::sockets::tcp_of(self.sockets, handle)
    }

    pub open spec fn udp(self, handle: SocketHandle) -> UdpSocketState {
        crate::sockets::udp_of(self.sockets, handle)
    }
}

impl<DeviceT, T, U, Q> View for SmolStack<DeviceT, T, U, Q> {
    type V = StackState<T, U, Q>;

    closed spec fn view(&self) -> StackState<T, U, Q> {
        StackState {
            sockets: crate::sockets::socket_set_contents(self.sockets),
            grows: crate::sockets::socket_set_grows(self.sockets),
            handlers: self.socket_handles@,
            stop: self.should_stack_thread_stop,
            read_wake_deque: self.read_wake_deque,
            write_wake_deque: self.write_wake_deque,
            tcp_calls: self.tcp_calls@,
            udp_calls: self.udp_calls@,
        }
    }
}

/// A TCP socket is added: it is fresh, its handle was free, and it is served through `on`
/// when the stack is spun.
pub open spec fn tcp_socket_added<T, U, Q>(
    before: StackState<T, U, Q>,
    on: Option<OnTcpSocketData<T>>,
    handle: SocketHandle,
    after: StackState<T, U, Q>,
) -> bool {
    &&& !before.sockets.contains_key(handle)
    &&& after == StackState {
        sockets: before.sockets.insert(
            handle,
            SocketState::Tcp(
                TcpSocketState::fresh(TCP_BUFFER_SIZE as nat, TCP_BUFFER_SIZE as nat),
            ),
        ),
        handlers: before.handlers.insert(
            handle,
            (SocketType::TCP, OnSocketData { on_tcp: on, on_udp: None }),
        ),
        ..before
    }
}

/// A UDP socket is added: it is fresh and its handle was free. It is not served when the
/// stack is spun.
pub open spec fn udp_socket_added<T, U, Q>(
    before: StackState<T, U, Q>,
    handle: SocketHandle,
    after: StackState<T, U, Q>,
) -> bool {
    &&& !before.sockets.contains_key(handle)
    &&& after == before.with_socket(
        handle,
        SocketState::Udp(
            UdpSocketState::fresh(
                UDP_PACKET_SLOTS as nat,
                UDP_BUFFER_SIZE as nat,
                UDP_PACKET_SLOTS as nat,
                UDP_BUFFER_SIZE as nat,
            ),
        ),
    )
}

/// `data` was sent on a TCP socket, with the outcome `r`: what fits is queued where the
/// connection is open, and nothing changes where it is not.
pub open spec fn tcp_sent<T, U, Q>(
    before: StackState<T, U, Q>,
    handle: SocketHandle,
    data: Seq<u8>,
    r: Result<usize, SocketSendError>,
    after: StackState<T, U, Q>,
) -> bool {
    let socket = before.tcp(handle);
    match r {
        Ok(n) => {
            &&& socket.may_send()
            &&& n as int == socket.accepted(data.len())
            &&& after == before.with_socket(
                handle,
                SocketState::Tcp(socket.queued(data.take(n as int))),
            )
        },
        Err(e) => {
            &&& !socket.may_send()
            &&& crate::socket::reported_send_error(crate::error::SmoltcpError::Illegal, e)
            &&& after == before
        },
    }
}

/// A connection to `addr` was asked for on a TCP socket, with the outcome `r`.
pub open spec fn tcp_connected<T, U, Q>(
    before: StackState<T, U, Q>,
    handle: SocketHandle,
    addr: SocketAddr,
    src_port: u16,
    r: Result<(), SocketConnectionError>,
    after: StackState<T, U, Q>,
) -> bool {
    let socket = before.tcp(handle);
    match socket.connect_error(addr.endpoint(), src_port) {
        None => r is Ok && after == before.with_socket(
            handle,
            SocketState::Tcp(socket.connecting(addr.endpoint(), src_port)),
        ),
        Some(k) => r is Err && crate::socket::reported_connection_error(k, r->Err_0) && after
            == before,
    }
}

/// A datagram with the payload `data` was sent to `addr` on a UDP socket, with the outcome
/// `r`: all of it is queued, or none. A refusal may leave the transmit ring with less room.
pub open spec fn udp_sent<T, U, Q>(
    before: StackState<T, U, Q>,
    handle: SocketHandle,
    data: Seq<u8>,
    addr: SocketAddr,
    r: Result<usize, SocketSendError>,
    after: StackState<T, U, Q>,
) -> bool {
    let socket = before.udp(handle);
    &&& after.has_udp(handle)
    &&& after == before.with_socket(handle, after.sockets[handle])
    &&& match socket.send_error(addr.endpoint(), data.len()) {
        None => r == Ok::<usize, SocketSendError>(data.len() as usize) && socket.queued(
            UdpDatagram { endpoint: addr.endpoint(), payload: data },
        ).same_but_room(after.udp(handle)),
        Some(k) => {
            &&& r is Err
            &&& crate::socket::reported_send_error(k, r->Err_0)
            &&& socket.same_but_room(after.udp(handle))
            &&& k != crate::error::SmoltcpError::Exhausted || socket.tx_room is None ==> after
                == before
        },
    }
}

/// The callback can be handed any octets.
pub open spec fn takes_any_octets<T: Fn(&[u8]) -> Result<usize, SocketReceiveError>>(on: T) -> bool {
    forall|data: &[u8]| call_requires(on, (data,))
}

/// The callback can be handed what a TCP socket has to hand over, if anything.
pub open spec fn takes_octets<T: Fn(&[u8]) -> Result<usize, SocketReceiveError>>(
    on: T,
    socket: TcpSocketState,
) -> bool {
    forall|data: &[u8]|
        socket.can_recv() && data@ == socket.piece() ==> #[trigger] call_requires(on, (data,))
}

/// The callback can be handed the datagram that waits first on a UDP socket, if one waits and
/// its sender has an address.
pub open spec fn takes_datagram<U: Fn(&[u8], IpAddr, u16) -> Result<usize, SocketReceiveError>>(
    on: U,
    socket: UdpSocketState,
) -> bool {
    forall|data: &[u8], addr: IpAddr|
        {
            &&& socket.rx.len() > 0
            &&& data@ == socket.rx[0].payload
            &&& socket.rx[0].endpoint.addr.concrete() == Some(addr)
        } ==> #[trigger] call_requires(on, (data, addr, socket.rx[0].endpoint.port))
}

/// `chunk`, the piece at the front of the octets received on a TCP socket, was taken.
pub open spec fn tcp_delivered(before: TcpSocketState, chunk: Seq<u8>, after: TcpSocketState) -> bool {
    &&& 0 < before.rx_piece <= before.rx.len()
    &&& chunk == before.piece()
    &&& after == before.taken()
}

/// A TCP socket was served: where octets were waiting, the piece at their front was handed to
/// the callback, whatever it said to it; otherwise nothing happened.
pub open spec fn tcp_spun<T: Fn(&[u8]) -> Result<usize, SocketReceiveError>>(
    on: T,
    before: TcpSocketState,
    after: TcpSocketState,
) -> bool {
    if before.can_recv() {
        exists|data: &[u8], said: Result<usize, SocketReceiveError>|
            tcp_delivered(before, data@, after) && #[trigger] call_ensures(on, (data,), said)
    } else {
        after == before
    }
}

/// A UDP socket was served, with the outcome `r`: where a datagram was waiting, the first one
/// left the ring and was handed to the callback with its sender, unless the sender has no
/// address; otherwise nothing happened.
pub open spec fn udp_spun<U: Fn(&[u8], IpAddr, u16) -> Result<usize, SocketReceiveError>>(
    on: U,
    before: UdpSocketState,
    after: UdpSocketState,
    r: Result<(), SpinError>,
) -> bool {
    if before.can_recv() {
        let first = before.rx[0];
        &&& before.taken(after)
        &&& match first.endpoint.addr.concrete() {
            None => r matches Err(SpinError::Unknown(text)) && text@
                == "spin address conversion error"@,
            Some(addr) => exists|data: &[u8], said: Result<usize, SocketReceiveError>|
                {
                    &&& data@ == first.payload
                    &&& #[trigger] call_ensures(on, (data, addr, first.endpoint.port), said)
                    &&& match said {
                        Ok(_) => r is Ok,
                        Err(_) => r == Err::<(), SpinError>(SpinError::NoCallback),
                    }
                },
        }
    } else {
        after == before && r is Ok
    }
}

/// The calls that are made when a TCP socket is served through `on`: one, with the piece at the
/// front of the octets that wait, or none where none wait.
pub open spec fn tcp_handed<T>(on: T, socket: TcpSocketState) -> Seq<TcpCall<T>> {
    if socket.can_recv() {
        seq![TcpCall { on, octets: socket.piece() }]
    } else {
        Seq::empty()
    }
}

/// The calls that are made when a UDP socket is served through `on`: one, with the datagram that
/// waits first, or none where none waits or its sender has no address.
pub open spec fn udp_handed<U>(on: U, socket: UdpSocketState) -> Seq<UdpCall<U>> {
    if socket.rx.len() > 0 {
        match socket.rx[0].endpoint.addr.concrete() {
            Some(addr) => seq![
                UdpCall {
                    on,
                    payload: socket.rx[0].payload,
                    addr,
                    port: socket.rx[0].endpoint.port,
                },
            ],
            None => Seq::empty(),
        }
    } else {
        Seq::empty()
    }
}

/// The calls `before` and those `more` for the socket with the handle `handle` make `after`.
pub open spec fn calls_added<C>(
    before: Map<SocketHandle, Seq<C>>,
    handle: SocketHandle,
    more: Seq<C>,
    after: Map<SocketHandle, Seq<C>>,
) -> bool {
    forall|h: SocketHandle| #[trigger]
        crate::calls::calls_of(after, h) == if h == handle {
            crate::calls::calls_of(before, h) + more
        } else {
            crate::calls::calls_of(before, h)
        }
}

proof fn lemma_one_call_added<C>(before: Map<SocketHandle, Seq<C>>, handle: SocketHandle)
    ensures
        forall|call: C|
            calls_added(
                before,
                handle,
                seq![call],
                before.insert(
                    handle,
                    #[trigger] crate::calls::calls_of(before, handle).push(call),
                ),
            ),
{
    let calls = crate::calls::calls_of(before, handle);
    assert forall|call: C|
        calls_added(before, handle, seq![call], before.insert(handle, #[trigger] calls.push(call))) by {
        assert(calls.push(call) =~= calls + seq![call]);
    }
}

proof fn lemma_no_call_added<C>(before: Map<SocketHandle, Seq<C>>, handle: SocketHandle)
    ensures
        calls_added(before, handle, Seq::<C>::empty(), before),
{
    let calls = crate::calls::calls_of(before, handle);
    assert(calls + Seq::<C>::empty() =~= calls);
}

/// The calls that are made for the socket with the handle `handle` when it is served as the TCP
/// socket that it is registered as, if it is.
pub open spec fn registered_tcp_handed<T, U, Q>(
    state: StackState<T, U, Q>,
    handle: SocketHandle,
) -> Seq<TcpCall<T>> {
    if state.handlers.contains_key(handle) && state.handlers[handle].0 == SocketType::TCP {
        tcp_handed(*state.handlers[handle].1.on_tcp->0, state.tcp(handle))
    } else {
        Seq::empty()
    }
}

/// The calls that are made for the socket with the handle `handle` when it is served as the UDP
/// socket that it is registered as, if it is.
pub open spec fn registered_udp_handed<T, U, Q>(
    state: StackState<T, U, Q>,
    handle: SocketHandle,
) -> Seq<UdpCall<U>> {
    if state.handlers.contains_key(handle) && state.handlers[handle].0 == SocketType::UDP {
        udp_handed(*state.handlers[handle].1.on_udp->0, state.udp(handle))
    } else {
        Seq::empty()
    }
}

/// A datagram is there to take where the receive ring is not empty.
pub open spec fn udp_servable(socket: UdpSocketState) -> bool {
    socket.can_recv() ==> socket.rx.len() > 0
}

/// The socket with the handle `handle` can be served: it is of the kind that it is registered
/// as, TCP or UDP, and its callback is there and takes what the socket has to hand over.
pub open spec fn can_serve<T, U, Q>(state: StackState<T, U, Q>, handle: SocketHandle) -> bool where
    T: Fn(&[u8]) -> Result<usize, SocketReceiveError>,
    U: Fn(&[u8], IpAddr, u16) -> Result<usize, SocketReceiveError>,
 {
    let (socket_type, on) = state.handlers[handle];
    match socket_type {
        SocketType::TCP => state.has_tcp(handle) && on.on_tcp is Some && takes_octets(
            *on.on_tcp->0,
            state.tcp(handle),
        ),
        SocketType::UDP => state.has_udp(handle) && udp_servable(state.udp(handle))
            && on.on_udp is Some && takes_datagram(*on.on_udp->0, state.udp(handle)),
        _ => false,
    }
}

/// Every registered socket can be served.
pub open spec fn can_spin<T, U, Q>(state: StackState<T, U, Q>) -> bool where
    T: Fn(&[u8]) -> Result<usize, SocketReceiveError>,
    U: Fn(&[u8], IpAddr, u16) -> Result<usize, SocketReceiveError>,
 {
    forall|h: SocketHandle| #[trigger] state.handlers.contains_key(h) ==> can_serve(state, h)
}

/// The socket `before`, registered as `handler`, was served and became `after`.
pub open spec fn served<T, U>(
    handler: (SocketType, OnSocketData<T, U>),
    before: SocketState,
    after: SocketState,
) -> bool where
    T: Fn(&[u8]) -> Result<usize, SocketReceiveError>,
    U: Fn(&[u8], IpAddr, u16) -> Result<usize, SocketReceiveError>,
 {
    match handler.0 {
        SocketType::TCP => after is Tcp && tcp_spun(
            *handler.1.on_tcp->0,
            before->Tcp_0,
            after->Tcp_0,
        ),
        _ => after is Udp && exists|r: Result<(), SpinError>|
            #[trigger] udp_spun(*handler.1.on_udp->0, before->Udp_0, after->Udp_0, r),
    }
}

/// Every registered socket was served once, with the calls that this takes, and no other socket
/// changed.
pub open spec fn spun<T, U, Q>(before: StackState<T, U, Q>, after: StackState<T, U, Q>) -> bool where
    T: Fn(&[u8]) -> Result<usize, SocketReceiveError>,
    U: Fn(&[u8], IpAddr, u16) -> Result<usize, SocketReceiveError>,
 {
    &&& after == before.with_sockets(after.sockets).with_tcp_calls(
        after.tcp_calls,
    ).with_udp_calls(after.udp_calls)
    &&& after.sockets.dom() == before.sockets.dom()
    &&& forall|h: SocketHandle| #[trigger]
        after.tcp_calls_of(h) == before.tcp_calls_of(h) + registered_tcp_handed(before, h)
    &&& forall|h: SocketHandle| #[trigger]
        after.udp_calls_of(h) == before.udp_calls_of(h) + registered_udp_handed(before, h)
    &&& forall|h: SocketHandle|
        #![trigger before.sockets.contains_key(h)]
        #![trigger after.sockets[h]]
        before.sockets.contains_key(h) ==> if before.handlers.contains_key(h) {
            served(before.handlers[h], before.sockets[h], after.sockets[h])
        } else {
            after.sockets[h] == before.sockets[h]
        }
}

impl<DeviceT, T, U, Q> SmolStack<DeviceT, T, U, Q> {
    /// The interface that the stack runs on.
    pub closed spec fn interface_of(self) -> DeviceT {
        self.interface
    }

    /// A stack without sockets over the given interface.
    pub fn new(
        interface: DeviceT,
        read_wake_deque: Option<Arc<Q>>,
        write_wake_deque: Option<Arc<Q>>,
    ) -> (r: Self)
        ensures
            r@ == StackState::<T, U, Q>::fresh(read_wake_deque, write_wake_deque),
            r.interface_of() == interface,
    {
        let r = SmolStack {
            sockets: new_socket_set(),
            interface,
            socket_handles: HandleMap::new(),
            should_stack_thread_stop: false,
            read_wake_deque,
            write_wake_deque,
            tcp_calls: TcpCalls::none(),
            udp_calls: UdpCalls::none(),
        };
        assert(r@.sockets =~= Map::empty());
        assert(r@.handlers =~= Map::empty());
        r
    }

    /// Whether the thread that serves the stack is to stop.
    pub(crate) fn should_stop(&self) -> (r: bool)
        ensures
            r == self@.stop,
    {
        self.should_stack_thread_stop
    }

    /// The queue of the tasks that wait to write.
    pub(crate) fn get_write_wake_deque(&self) -> (r: Arc<Q>)
        requires
            self@.write_wake_deque is Some,
        ensures
            r == self@.write_wake_deque->0,
    {
        self.write_wake_deque.as_ref().unwrap().clone()
    }

    pub(crate) fn add_tcp_socket(&mut self, on_tcp_socket_data: Option<OnTcpSocketData<T>>) -> (r: Result<
        SocketHandle,
        (),
    >)
        requires
            old(self)@.grows,
        ensures
            r is Ok,
            tcp_socket_added(old(self)@, on_tcp_socket_data, r->Ok_0, final(self)@),
            final(self).interface_of() == old(self).interface_of(),
    {
        let rx_buffer: Vec<u8> = vec![0; TCP_BUFFER_SIZE];
        let tx_buffer: Vec<u8> = vec![0; TCP_BUFFER_SIZE];
        let handle = add_tcp(&mut self.sockets, rx_buffer, tx_buffer);
        self.socket_handles.insert(
            handle,
            (SocketType::TCP, OnSocketData::tcp(on_tcp_socket_data)),
        );
        Ok(handle)
    }

    pub(crate) fn add_udp_socket(&mut self, _on_socket_data: Option<OnUdpSocketData<U>>) -> (r: Result<
        SocketHandle,
        (),
    >)
        requires
            old(self)@.grows,
        ensures
            r is Ok,
            udp_socket_added(old(self)@, r->Ok_0, final(self)@),
            final(self).interface_of() == old(self).interface_of(),
    {
        let rx_buffer: Vec<u8> = vec![0; UDP_BUFFER_SIZE];
        let tx_buffer: Vec<u8> = vec![0; UDP_BUFFER_SIZE];
        let handle = add_udp(
            &mut self.sockets,
            UDP_PACKET_SLOTS,
            rx_buffer,
            UDP_PACKET_SLOTS,
            tx_buffer,
        );
        Ok(handle)
    }

    pub(crate) fn tcp_socket_send(&mut self, socket_handle: SocketHandle, data: &[u8]) -> (r: Result<
        usize,
        SocketSendError,
    >)
        requires
            old(self)@.has_tcp(socket_handle),
        ensures
            tcp_sent(old(self)@, socket_handle, data@, r, final(self)@),
            final(self).interface_of() == old(self).interface_of(),
    {
        match tcp_send(&mut self.sockets, socket_handle, data) {
            Ok(n) => Ok(n),
            Err(e) => Err(SocketSendError::from(e)),
        }
    }

    pub(crate) fn udp_socket_send(
        &mut self,
        socket_handle: SocketHandle,
        data: &[u8],
        addr: SocketAddr,
    ) -> (r: Result<usize, SocketSendError>)
        requires
            old(self)@.has_udp(socket_handle),
        ensures
            udp_sent(old(self)@, socket_handle, data@, addr, r, final(self)@),
            final(self).interface_of() == old(self).interface_of(),
    {
        match udp_send(&mut self.sockets, socket_handle, data, addr.to_endpoint()) {
            Ok(_) => Ok(data.len()),
            Err(e) => Err(SocketSendError::from(e)),
        }
    }

    pub(crate) fn tcp_connect(
        &mut self,
        socket_handle: SocketHandle,
        addr: SocketAddr,
        src_port: u16,
    ) -> (r: Result<(), SocketConnectionError>)
        requires
            old(self)@.has_tcp(socket_handle),
        ensures
            tcp_connected(old(self)@, socket_handle, addr, src_port, r, final(self)@),
            final(self).interface_of() == old(self).interface_of(),
    {
        match tcp_connect(&mut self.sockets, socket_handle, addr.to_endpoint(), src_port) {
            Ok(()) => Ok(()),
            Err(e) => Err(SocketConnectionError::from(e)),
        }
    }
}

impl<DeviceT, T, U, Q> SmolStack<DeviceT, T, U, Q> where
    T: Fn(&[u8]) -> Result<usize, SocketReceiveError>,
 {
    pub(crate) fn spin_tcp(&mut self, socket_handle: &SocketHandle, on_tcp_socket_data: OnTcpSocketData<T>) -> (r:
        Result<(), SpinError>)
        requires
            old(self)@.has_tcp(*socket_handle),
            takes_octets(*on_tcp_socket_data, old(self)@.tcp(*socket_handle)),
        ensures
            r is Ok,
            final(self)@.has_tcp(*socket_handle),
            final(self)@ == old(self)@.with_socket(
                *socket_handle,
                final(self)@.sockets[*socket_handle],
            ).with_tcp_calls(final(self)@.tcp_calls),
            calls_added(
                old(self)@.tcp_calls,
                *socket_handle,
                tcp_handed(*on_tcp_socket_data, old(self)@.tcp(*socket_handle)),
                final(self)@.tcp_calls,
            ),
            tcp_spun(
                *on_tcp_socket_data,
                old(self)@.tcp(*socket_handle),
                final(self)@.tcp(*socket_handle),
            ),
            final(self).interface_of() == old(self).interface_of(),
    {
        proof {
            lemma_no_call_added(self@.tcp_calls, *socket_handle);
            lemma_one_call_added(self@.tcp_calls, *socket_handle);
        }
        if tcp_can_recv(&mut self.sockets, *socket_handle) {
            let piece = take_piece(&mut self.sockets, *socket_handle).unwrap();
            let given = piece.give_to(&*on_tcp_socket_data);
            let said = self.tcp_calls.record(*socket_handle, given);
            match said {
                Ok(_) => {},
                Err(_) => {},
            }
        } else {
            assert(self@.sockets =~= self@.sockets.insert(
                *socket_handle,
                self@.sockets[*socket_handle],
            ));
        }
        Ok(())
    }
}

impl<DeviceT, T, U, Q> SmolStack<DeviceT, T, U, Q> where
    U: Fn(&[u8], IpAddr, u16) -> Result<usize, SocketReceiveError>,
 {
    pub(crate) fn spin_udp(&mut self, socket_handle: &SocketHandle, on_udp_socket_data: OnUdpSocketData<U>) -> (r:
        Result<(), SpinError>)
        requires
            old(self)@.has_udp(*socket_handle),
            udp_servable(old(self)@.udp(*socket_handle)),
            takes_datagram(*on_udp_socket_data, old(self)@.udp(*socket_handle)),
        ensures
            final(self)@.has_udp(*socket_handle),
            final(self)@ == old(self)@.with_socket(
                *socket_handle,
                final(self)@.sockets[*socket_handle],
            ).with_udp_calls(final(self)@.udp_calls),
            calls_added(
                old(self)@.udp_calls,
                *socket_handle,
                udp_handed(*on_udp_socket_data, old(self)@.udp(*socket_handle)),
                final(self)@.udp_calls,
            ),
            udp_spun(
                *on_udp_socket_data,
                old(self)@.udp(*socket_handle),
                final(self)@.udp(*socket_handle),
                r,
            ),
            final(self).interface_of() == old(self).interface_of(),
    {
        proof {
            lemma_no_call_added(self@.udp_calls, *socket_handle);
            lemma_one_call_added(self@.udp_calls, *socket_handle);
        }
        if udp_can_recv(&mut self.sockets, *socket_handle) {
            let (payload, endpoint) = take_datagram(&mut self.sockets, *socket_handle).unwrap();
            let addr = match endpoint.addr.to_concrete() {
                Some(addr) => addr,
                None => return Err(SpinError::Unknown("spin address conversion error".to_string())),
            };
            let given = payload.give_from(addr, endpoint.port, &*on_udp_socket_data);
            match self.udp_calls.record(*socket_handle, given) {
                Ok(_) => {},
                Err(_) => return Err(SpinError::NoCallback),
            }
        } else {
            assert(self@.sockets =~= self@.sockets.insert(
                *socket_handle,
                self@.sockets[*socket_handle],
            ));
        }
        Ok(())
    }
}

impl<DeviceT, T, U, Q> SmolStack<DeviceT, T, U, Q> where
    T: Fn(&[u8]) -> Result<usize, SocketReceiveError>,
    U: Fn(&[u8], IpAddr, u16) -> Result<usize, SocketReceiveError>,
 {
    pub(crate) fn spin_all(&mut self) -> (r: Result<(), SpinError>)
        requires
            can_spin(old(self)@),
        ensures
            r is Ok,
            spun(old(self)@, final(self)@),
            final(self).interface_of() == old(self).interface_of(),
    {
        let ghost before = self@;
        let smol_socket_handles = self.socket_handles.handles();
        let ghost keys = smol_socket_handles@;
        let mut i: usize = 0;
        while i < smol_socket_handles.len()
            invariant
                i <= keys.len(),
                keys == smol_socket_handles@,
                keys.no_duplicates(),
                keys.to_set() == before.handlers.dom(),
                can_spin(before),
                self.interface_of() == old(self).interface_of(),
                self@ == before.with_sockets(self@.sockets).with_tcp_calls(
                    self@.tcp_calls,
                ).with_udp_calls(self@.udp_calls),
                self@.sockets.dom() == before.sockets.dom(),
                forall|j: int|
                    0 <= j < i ==> {
                        &&& self@.tcp_calls_of(#[trigger] keys[j]) == before.tcp_calls_of(keys[j])
                            + registered_tcp_handed(before, keys[j])
                        &&& self@.udp_calls_of(keys[j]) == before.udp_calls_of(keys[j])
                            + registered_udp_handed(before, keys[j])
                    },
                forall|h: SocketHandle|
                    #![trigger self@.tcp_calls_of(h)]
                    #![trigger self@.udp_calls_of(h)]
                    (forall|j: int| 0 <= j < i ==> #[trigger] keys[j] != h) ==> {
                        &&& self@.tcp_calls_of(h) == before.tcp_calls_of(h)
                        &&& self@.udp_calls_of(h) == before.udp_calls_of(h)
                    },
                forall|h: SocketHandle| #[trigger]
                    before.sockets.contains_key(h) && !before.handlers.contains_key(h)
                        ==> self@.sockets[h] == before.sockets[h],
                forall|j: int|
                    0 <= j < i ==> served(
                        before.handlers[keys[j]],
                        before.sockets[#[trigger] keys[j]],
                        self@.sockets[keys[j]],
                    ),
                forall|j: int|
                    i <= j < keys.len() ==> self@.sockets[#[trigger] keys[j]]
                        == before.sockets[keys[j]],
            decreases keys.len() - i,
        {
            let handle = smol_socket_handles[i];
            let ghost prev = self@;
            assert(keys.to_set().contains(keys[i as int]));
            assert(before.handlers.contains_key(handle));
            assert(can_serve(before, handle));
            let (socket_type, on_socket_data) = self.socket_handles.get(&handle).unwrap();
            match *socket_type {
                SocketType::TCP => {
                    let on_tcp_socket_data = on_socket_data.on_tcp.as_ref().unwrap().clone();
                    let _ = self.spin_tcp(&handle, on_tcp_socket_data);
                },
                SocketType::UDP => {
                    let on_udp_socket_data = on_socket_data.on_udp.as_ref().unwrap().clone();
                    let _ = self.spin_udp(&handle, on_udp_socket_data);
                },
                _ => {
                    assert(false);
                },
            }
            proof {
                let tcp = registered_tcp_handed(before, handle);
                let udp = registered_udp_handed(before, handle);
                assert(prev.tcp_calls_of(handle) == before.tcp_calls_of(handle));
                assert(prev.udp_calls_of(handle) == before.udp_calls_of(handle));
                assert(self@.tcp_calls_of(handle) =~= prev.tcp_calls_of(handle) + tcp);
                assert(self@.udp_calls_of(handle) =~= prev.udp_calls_of(handle) + udp);
                assert forall|h: SocketHandle| h != handle implies #[trigger] self@.tcp_calls_of(h)
                    == prev.tcp_calls_of(h) by {}
                assert forall|h: SocketHandle| h != handle implies #[trigger] self@.udp_calls_of(h)
                    == prev.udp_calls_of(h) by {}
                assert forall|h: SocketHandle|
                    (forall|j: int| 0 <= j < i + 1 ==> #[trigger] keys[j] != h) implies #[trigger] self@.tcp_calls_of(h)
                    == before.tcp_calls_of(h) by {
                    assert(keys[i as int] != h);
                    assert(prev.tcp_calls_of(h) == before.tcp_calls_of(h));
                }
                assert forall|h: SocketHandle|
                    (forall|j: int| 0 <= j < i + 1 ==> #[trigger] keys[j] != h) implies #[trigger] self@.udp_calls_of(h)
                    == before.udp_calls_of(h) by {
                    assert(keys[i as int] != h);
                    assert(prev.udp_calls_of(h) == before.udp_calls_of(h));
                }
            }
            i += 1;
        }
        Ok(())
    }
}

} // verus!
