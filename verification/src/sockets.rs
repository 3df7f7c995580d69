//! The socket set of the network stack: what it holds, and what the calls into it do.
use crate::addr::{IpAddress, IpEndpoint, Ipv4Address, Ipv6Address};
use smoltcp::socket::{SocketHandle, SocketSet, TcpSocket, TcpSocketBuffer};
use smoltcp::socket::{UdpPacketMetadata, UdpSocket, UdpSocketBuffer};
use smoltcp::wire;
use vstd::prelude::*;

pub mod handover;

use handover::Piece;

verus! {

/// A handle of a socket in a `SocketSet`.
#[verifier::external_type_specification]
#[verifier::external_body]
pub struct ExSocketHandle(SocketHandle);

/// The sockets of a network stack, found by their handles.
#[verifier::external_type_specification]
#[verifier::external_body]
pub struct ExSocketSet<'a>(SocketSet<'a>);

/// The states of the TCP state machine.
#[derive(Debug, Clone, Copy, PartialEq, Eq, Structural)]
pub enum TcpState {
    Closed,
    Listen,
    SynSent,
    SynReceived,
    Established,
    FinWait1,
    FinWait2,
    CloseWait,
    Closing,
    LastAck,
    TimeWait,
}

/// What a TCP socket holds, as far as its users see it: the octets received and not taken
/// yet, the octets queued for sending and not acknowledged yet, and how many of each fit.
#[verifier::ext_equal]
pub struct TcpSocketState {
    pub state: TcpState,
    pub rx: Seq<u8>,
    /// How many of the octets received, from the first one on, lie in one piece in the receive
    /// buffer, which is a ring.
    pub rx_piece: nat,
    pub tx: Seq<u8>,
    pub rx_capacity: nat,
    pub tx_capacity: nat,
    pub local_endpoint: IpEndpoint,
    pub remote_endpoint: IpEndpoint,
}

/// A datagram, with the endpoint that it came from or goes to.
pub struct UdpDatagram {
    pub endpoint: IpEndpoint,
    pub payload: Seq<u8>,
}

/// What a UDP socket holds, as far as its users see it.
#[verifier::ext_equal]
pub struct UdpSocketState {
    /// The local endpoint that the socket is bound to.
    pub endpoint: IpEndpoint,
    /// The datagrams received and not taken yet.
    pub rx: Seq<UdpDatagram>,
    /// How many datagrams the receive ring can ever hold.
    pub rx_slots: nat,
    /// The size of the largest payload that the receive ring can ever hold.
    pub rx_capacity: nat,
    /// Whether the receive ring holds nothing but the padding that it puts in front of a
    /// datagram which does not fit before the ring's end.
    pub rx_padding: bool,
    /// The datagrams queued for sending.
    pub tx: Seq<UdpDatagram>,
    /// How many datagrams the transmit ring can ever hold.
    pub tx_slots: nat,
    /// The size of the largest payload that the transmit ring takes as it is; `None` where
    /// it takes none at all.
    pub tx_room: Option<nat>,
    /// The size of the largest payload that the transmit ring can ever take.
    pub tx_capacity: nat,
}

/// What a socket of a set holds.
pub enum SocketState {
    Tcp(TcpSocketState),
    Udp(UdpSocketState),
    Other,
}

impl TcpSocketState {
    /// A socket that was just made, over buffers of the given sizes.
    pub open spec fn fresh(rx_capacity: nat, tx_capacity: nat) -> TcpSocketState {
        TcpSocketState {
            state: TcpState::Closed,
            rx: Seq::empty(),
            rx_piece: 0,
            tx: Seq::empty(),
            rx_capacity,
            tx_capacity,
            local_endpoint: IpEndpoint::unbound(),
            remote_endpoint: IpEndpoint::unbound(),
        }
    }

    /// Whether the socket takes part in any exchange.
    pub open spec fn is_open(self) -> bool {
        self.state != TcpState::Closed && self.state != TcpState::TimeWait
    }

    /// Whether the transmit half of the connection is open.
    pub open spec fn may_send(self) -> bool {
        self.state == TcpState::Established || self.state == TcpState::CloseWait
    }

    /// Whether there are octets to take.
    pub open spec fn can_recv(self) -> bool {
        self.rx.len() > 0
    }

    /// How many of `len` octets the transmit buffer takes.
    pub open spec fn accepted(self, len: nat) -> int {
        if len <= self.tx_capacity - self.tx.len() {
            len as int
        } else {
            self.tx_capacity - self.tx.len()
        }
    }

    /// The socket after `data` was queued.
    pub open spec fn queued(self, data: Seq<u8>) -> TcpSocketState {
        TcpSocketState { tx: self.tx + data, ..self }
    }

    /// The received octets that lie in one piece at the front.
    pub open spec fn piece(self) -> Seq<u8> {
        self.rx.take(self.rx_piece as int)
    }

    /// The socket after the piece at the front was taken: the rest starts at the beginning of
    /// the ring, in one piece.
    pub open spec fn taken(self) -> TcpSocketState {
        let rest = self.rx.skip(self.rx_piece as int);
        TcpSocketState { rx: rest, rx_piece: rest.len(), ..self }
    }

    /// Why a connection to `remote` from the port `local_port` is refused, if it is.
    pub open spec fn connect_error(self, remote: IpEndpoint, local_port: u16) -> Option<
        crate::error::SmoltcpError,
    > {
        if self.is_open() {
            Some(crate::error::SmoltcpError::Illegal)
        } else if !remote.is_specified() || local_port == 0 {
            Some(crate::error::SmoltcpError::Unaddressable)
        } else {
            None
        }
    }

    /// The socket once a connection to `remote` from the port `local_port` was begun: its
    /// buffers are empty, and its local address is open but for the version.
    pub open spec fn connecting(self, remote: IpEndpoint, local_port: u16) -> TcpSocketState {
        TcpSocketState {
            state: TcpState::SynSent,
            rx: Seq::empty(),
            rx_piece: 0,
            tx: Seq::empty(),
            local_endpoint: IpEndpoint { addr: remote.addr.to_unspecified(), port: local_port },
            remote_endpoint: remote,
            ..self
        }
    }
}

impl UdpSocketState {
    /// A socket that was just made, over a receive and a transmit ring for so many datagrams
    /// and octets.
    pub open spec fn fresh(
        rx_slots: nat,
        rx_capacity: nat,
        tx_slots: nat,
        tx_capacity: nat,
    ) -> UdpSocketState {
        UdpSocketState {
            endpoint: IpEndpoint::unbound(),
            rx: Seq::empty(),
            rx_slots,
            rx_capacity,
            rx_padding: false,
            tx: Seq::empty(),
            tx_slots,
            tx_room: if tx_slots == 0 {
                None
            } else {
                Some(tx_capacity)
            },
            tx_capacity,
        }
    }

    /// Whether the receive ring is not empty.
    pub open spec fn can_recv(self) -> bool {
        self.rx.len() > 0 || self.rx_padding
    }

    /// Why a datagram of `len` octets to `remote` is refused, if it is.
    pub open spec fn send_error(self, remote: IpEndpoint, len: nat) -> Option<
        crate::error::SmoltcpError,
    > {
        if self.endpoint.port == 0 || !remote.is_specified() {
            Some(crate::error::SmoltcpError::Unaddressable)
        } else if len > self.tx_capacity {
            Some(crate::error::SmoltcpError::Truncated)
        } else {
            match self.tx_room {
                Some(room) if len <= room => None,
                _ => Some(crate::error::SmoltcpError::Exhausted),
            }
        }
    }

    /// `after` differs from `self` at most in the room that the transmit ring has.
    pub open spec fn same_but_room(self, after: UdpSocketState) -> bool {
        after == UdpSocketState { tx_room: after.tx_room, ..self }
    }

    /// The socket after `datagram` was queued, whatever room is left.
    pub open spec fn queued(self, datagram: UdpDatagram) -> UdpSocketState {
        UdpSocketState { tx: self.tx.push(datagram), ..self }
    }

    /// `after` is the socket after its first datagram was taken; what is left of the ring's
    /// padding is open.
    pub open spec fn taken(self, after: UdpSocketState) -> bool {
        after == UdpSocketState {
            rx: self.rx.skip(1),
            rx_padding: after.rx_padding,
            ..self
        }
    }
}

/// The sockets that a set holds, by their handles.
pub uninterp spec fn socket_set_contents(set: SocketSet<'static>) -> Map<
    SocketHandle,
    SocketState,
>;

/// Whether a set grows as sockets are added, as one over a `Vec` does.
pub uninterp spec fn socket_set_grows(set: SocketSet<'static>) -> bool;

/// `handle` belongs to a TCP socket.
pub open spec fn is_tcp(sockets: Map<SocketHandle, SocketState>, handle: SocketHandle) -> bool {
    sockets.contains_key(handle) && sockets[handle] is Tcp
}

/// `handle` belongs to a UDP socket.
pub open spec fn is_udp(sockets: Map<SocketHandle, SocketState>, handle: SocketHandle) -> bool {
    sockets.contains_key(handle) && sockets[handle] is Udp
}

/// The TCP socket with the handle `handle`.
pub open spec fn tcp_of(
    sockets: Map<SocketHandle, SocketState>,
    handle: SocketHandle,
) -> TcpSocketState {
    sockets[handle]->Tcp_0
}

/// The UDP socket with the handle `handle`.
pub open spec fn udp_of(
    sockets: Map<SocketHandle, SocketState>,
    handle: SocketHandle,
) -> UdpSocketState {
    sockets[handle]->Udp_0
}

/// Calls `SocketHandle::eq`: handles are equal exactly where they are the same.
#[verifier::external_body]
pub(crate) fn same_handle(a: &SocketHandle, b: &SocketHandle) -> (r: bool)
    ensures
        r == (*a == *b),
{
    a == b
}

/// Calls `SocketSet::new` with an empty `Vec`: the set is empty, and grows.
#[verifier::external_body]
pub(crate) fn new_socket_set() -> (set: SocketSet<'static>)
    ensures
        socket_set_contents(set).dom() == Set::<SocketHandle>::empty(),
        socket_set_grows(set),
{
    SocketSet::new(Vec::new())
}

/// Calls `SocketSet::add` with a socket that `TcpSocket::new` makes over the given storage:
/// the socket is closed and its buffers are empty, its handle was not in use, and the other
/// sockets stay as they were. A set that does not grow may be full, which panics; so does a
/// receive buffer of more than a gibibyte.
#[verifier::external_body]
pub(crate) fn add_tcp(set: &mut SocketSet<'static>, rx: Vec<u8>, tx: Vec<u8>) -> (r: SocketHandle)
    requires
        socket_set_grows(*old(set)),
        rx@.len() <= 0x4000_0000,
    ensures
        !socket_set_contents(*old(set)).contains_key(r),
        socket_set_contents(*final(set)) == socket_set_contents(*old(set)).insert(
            r,
            SocketState::Tcp(TcpSocketState::fresh(rx@.len(), tx@.len())),
        ),
        socket_set_grows(*final(set)),
{
    set.add(TcpSocket::new(TcpSocketBuffer::new(rx), TcpSocketBuffer::new(tx)))
}

/// Calls `SocketSet::add` with a socket that `UdpSocket::new` makes over rings for so many
/// datagrams and over the given storage: the socket is not bound, its rings are empty and of
/// these sizes, its handle was not in use, and the other sockets stay as they were. A set that does not grow
/// may be full, which panics.
#[verifier::external_body]
pub(crate) fn add_udp(
    set: &mut SocketSet<'static>,
    rx_slots: usize,
    rx: Vec<u8>,
    tx_slots: usize,
    tx: Vec<u8>,
) -> (r: SocketHandle)
    requires
        socket_set_grows(*old(set)),
    ensures
        !socket_set_contents(*old(set)).contains_key(r),
        socket_set_contents(*final(set)) == socket_set_contents(*old(set)).insert(
            r,
            SocketState::Udp(
                UdpSocketState::fresh(rx_slots as nat, rx@.len(), tx_slots as nat, tx@.len()),
            ),
        ),
        socket_set_grows(*final(set)),
{
    let rx_ring = UdpSocketBuffer::new(vec![UdpPacketMetadata::EMPTY; rx_slots], rx);
    let tx_ring = UdpSocketBuffer::new(vec![UdpPacketMetadata::EMPTY; tx_slots], tx);
    set.add(UdpSocket::new(rx_ring, tx_ring))
}

/// Calls `TcpSocket::can_recv`: whether any received octets are waiting. No socket changes.
#[verifier::external_body]
pub(crate) fn tcp_can_recv(set: &mut SocketSet<'static>, handle: SocketHandle) -> (r: bool)
    requires
        is_tcp(socket_set_contents(*old(set)), handle),
    ensures
        r == tcp_of(socket_set_contents(*old(set)), handle).can_recv(),
        socket_set_contents(*final(set)) == socket_set_contents(*old(set)),
        socket_set_grows(*final(set)) == socket_set_grows(*old(set)),
{
    set.get::<TcpSocket>(handle).can_recv()
}

/// Takes the whole of a contiguous piece of a receive buffer.
pub fn take_all(data: &mut [u8]) -> (r: (usize, Vec<u8>))
    ensures
        r.0 == old(data)@.len(),
        r.1@ == old(data)@,
        final(data)@ == old(data)@,
{
    let taken = vstd::slice::slice_to_vec(data);
    (taken.len(), taken)
}

/// Calls `TcpSocket::recv` with `take_all`, where received octets are waiting: the octets
/// handed over are the first of those waiting, as many as lie in one piece in the buffer, at
/// least one; they leave it, and the rest then lies in one piece.
#[verifier::external_body]
fn tcp_recv(set: &mut SocketSet<'static>, handle: SocketHandle) -> (r: Result<
    Vec<u8>,
    smoltcp::Error,
>)
    requires
        is_tcp(socket_set_contents(*old(set)), handle),
        tcp_of(socket_set_contents(*old(set)), handle).can_recv(),
    ensures
        r is Ok,
        r->Ok_0@.len() == tcp_of(socket_set_contents(*old(set)), handle).rx_piece,
        0 < r->Ok_0@.len() <= tcp_of(socket_set_contents(*old(set)), handle).rx.len(),
        r->Ok_0@ == tcp_of(socket_set_contents(*old(set)), handle).piece(),
        socket_set_contents(*final(set)) == socket_set_contents(*old(set)).insert(
            handle,
            SocketState::Tcp(tcp_of(socket_set_contents(*old(set)), handle).taken()),
        ),
        socket_set_grows(*final(set)) == socket_set_grows(*old(set)),
{
    set.get::<TcpSocket>(handle).recv(take_all)
}

/// Takes the piece at the front of the octets that wait on a TCP socket, to be handed over once.
pub(crate) fn take_piece(set: &mut SocketSet<'static>, handle: SocketHandle) -> (r: Result<
    Piece,
    smoltcp::Error,
>)
    requires
        is_tcp(socket_set_contents(*old(set)), handle),
        tcp_of(socket_set_contents(*old(set)), handle).can_recv(),
    ensures
        r is Ok,
        r->Ok_0@.len() == tcp_of(socket_set_contents(*old(set)), handle).rx_piece,
        0 < r->Ok_0@.len() <= tcp_of(socket_set_contents(*old(set)), handle).rx.len(),
        r->Ok_0@ == tcp_of(socket_set_contents(*old(set)), handle).piece(),
        socket_set_contents(*final(set)) == socket_set_contents(*old(set)).insert(
            handle,
            SocketState::Tcp(tcp_of(socket_set_contents(*old(set)), handle).taken()),
        ),
        socket_set_grows(*final(set)) == socket_set_grows(*old(set)),
{
    match tcp_recv(set, handle) {
        Ok(octets) => Ok(Piece::seal(octets)),
        Err(e) => Err(e),
    }
}

/// Calls `TcpSocket::send_slice`: where the transmit half of the connection is open, as many
/// of the octets as fit are queued behind those that wait already, and their number is
/// returned; otherwise the call is illegal and no socket changes.
#[verifier::external_body]
pub(crate) fn tcp_send(set: &mut SocketSet<'static>, handle: SocketHandle, data: &[u8]) -> (r:
    Result<usize, smoltcp::Error>)
    requires
        is_tcp(socket_set_contents(*old(set)), handle),
    ensures
        r is Ok <==> tcp_of(socket_set_contents(*old(set)), handle).may_send(),
        r matches Ok(n) ==> n as int == tcp_of(socket_set_contents(*old(set)), handle).accepted(
            data@.len(),
        ) && socket_set_contents(*final(set)) == socket_set_contents(*old(set)).insert(
            handle,
            SocketState::Tcp(
                tcp_of(socket_set_contents(*old(set)), handle).queued(data@.take(n as int)),
            ),
        ),
        r matches Err(e) ==> crate::error::error_kind_of(e)
            == crate::error::SmoltcpError::Illegal && socket_set_contents(*final(set))
            == socket_set_contents(*old(set)),
        socket_set_grows(*final(set)) == socket_set_grows(*old(set)),
{
    set.get::<TcpSocket>(handle).send_slice(data)
}

/// Calls `TcpSocket::connect` with a local endpoint that has a port alone: refused where the
/// socket is open, where the remote endpoint is not specified, or where the port is zero, with
/// no socket changed; otherwise the socket is reset and a connection is begun.
#[verifier::external_body]
pub(crate) fn tcp_connect(
    set: &mut SocketSet<'static>,
    handle: SocketHandle,
    remote: IpEndpoint,
    local_port: u16,
) -> (r: Result<(), smoltcp::Error>)
    requires
        is_tcp(socket_set_contents(*old(set)), handle),
    ensures
        r is Ok <==> tcp_of(socket_set_contents(*old(set)), handle).connect_error(
            remote,
            local_port,
        ) is None,
        r is Ok ==> socket_set_contents(*final(set)) == socket_set_contents(*old(set)).insert(
            handle,
            SocketState::Tcp(
                tcp_of(socket_set_contents(*old(set)), handle).connecting(remote, local_port),
            ),
        ),
        r matches Err(e) ==> Some(crate::error::error_kind_of(e)) == tcp_of(
            socket_set_contents(*old(set)),
            handle,
        ).connect_error(remote, local_port) && socket_set_contents(*final(set))
            == socket_set_contents(*old(set)),
        socket_set_grows(*final(set)) == socket_set_grows(*old(set)),
{
    let addr = match remote.addr {
        IpAddress::Unspecified => wire::IpAddress::Unspecified,
        IpAddress::Ipv4(a) => wire::IpAddress::Ipv4(wire::Ipv4Address(a.0)),
        IpAddress::Ipv6(a) => wire::IpAddress::Ipv6(wire::Ipv6Address(a.0)),
    };
    let endpoint = wire::IpEndpoint::new(addr, remote.port);
    set.get::<TcpSocket>(handle).connect(endpoint, local_port)
}

/// Calls `UdpSocket::can_recv`: whether the receive ring is not empty. No socket changes.
#[verifier::external_body]
pub(crate) fn udp_can_recv(set: &mut SocketSet<'static>, handle: SocketHandle) -> (r: bool)
    requires
        is_udp(socket_set_contents(*old(set)), handle),
    ensures
        r == udp_of(socket_set_contents(*old(set)), handle).can_recv(),
        socket_set_contents(*final(set)) == socket_set_contents(*old(set)),
        socket_set_grows(*final(set)) == socket_set_grows(*old(set)),
{
    set.get::<UdpSocket>(handle).can_recv()
}

/// Calls `UdpSocket::recv`, where a datagram is waiting: the first one is handed over, with
/// its sender, and leaves the ring.
#[verifier::external_body]
fn udp_recv(set: &mut SocketSet<'static>, handle: SocketHandle) -> (r: Result<
    (Vec<u8>, IpEndpoint),
    smoltcp::Error,
>)
    requires
        is_udp(socket_set_contents(*old(set)), handle),
        udp_of(socket_set_contents(*old(set)), handle).rx.len() > 0,
    ensures
        r is Ok,
        r->Ok_0.0@ == udp_of(socket_set_contents(*old(set)), handle).rx[0].payload,
        r->Ok_0.1 == udp_of(socket_set_contents(*old(set)), handle).rx[0].endpoint,
        is_udp(socket_set_contents(*final(set)), handle),
        socket_set_contents(*final(set)) == socket_set_contents(*old(set)).insert(
            handle,
            socket_set_contents(*final(set))[handle],
        ),
        udp_of(socket_set_contents(*old(set)), handle).taken(
            udp_of(socket_set_contents(*final(set)), handle),
        ),
        socket_set_grows(*final(set)) == socket_set_grows(*old(set)),
{
    let mut socket = set.get::<UdpSocket>(handle);
    let (payload, from) = socket.recv()?;
    let addr = match from.addr {
        wire::IpAddress::Ipv4(a) => IpAddress::Ipv4(Ipv4Address(a.0)),
        wire::IpAddress::Ipv6(a) => IpAddress::Ipv6(Ipv6Address(a.0)),
        _ => IpAddress::Unspecified,
    };
    Ok((payload.to_vec(), IpEndpoint { addr, port: from.port }))
}

/// Takes the datagram that waits first on a UDP socket, to be handed over once.
pub(crate) fn take_datagram(set: &mut SocketSet<'static>, handle: SocketHandle) -> (r: Result<
    (Piece, IpEndpoint),
    smoltcp::Error,
>)
    requires
        is_udp(socket_set_contents(*old(set)), handle),
        udp_of(socket_set_contents(*old(set)), handle).rx.len() > 0,
    ensures
        r is Ok,
        r->Ok_0.0@ == udp_of(socket_set_contents(*old(set)), handle).rx[0].payload,
        r->Ok_0.1 == udp_of(socket_set_contents(*old(set)), handle).rx[0].endpoint,
        is_udp(socket_set_contents(*final(set)), handle),
        socket_set_contents(*final(set)) == socket_set_contents(*old(set)).insert(
            handle,
            socket_set_contents(*final(set))[handle],
        ),
        udp_of(socket_set_contents(*old(set)), handle).taken(
            udp_of(socket_set_contents(*final(set)), handle),
        ),
        socket_set_grows(*final(set)) == socket_set_grows(*old(set)),
{
    match udp_recv(set, handle) {
        Ok((payload, from)) => Ok((Piece::seal(payload), from)),
        Err(e) => Err(e),
    }
}

/// Calls `UdpSocket::send_slice`: refused where the socket is not bound or the remote endpoint
/// is not specified, where the payload exceeds the ring, or where the ring has no room for it
/// now; otherwise the datagram is queued behind those that wait already. What room is left
/// after a datagram was queued, or refused for want of room, is not stated; any other refusal
/// changes nothing.
#[verifier::external_body]
pub(crate) fn udp_send(
    set: &mut SocketSet<'static>,
    handle: SocketHandle,
    data: &[u8],
    remote: IpEndpoint,
) -> (r: Result<(), smoltcp::Error>)
    requires
        is_udp(socket_set_contents(*old(set)), handle),
    ensures
        r is Ok <==> udp_of(socket_set_contents(*old(set)), handle).send_error(
            remote,
            data@.len(),
        ) is None,
        is_udp(socket_set_contents(*final(set)), handle),
        socket_set_contents(*final(set)) == socket_set_contents(*old(set)).insert(
            handle,
            socket_set_contents(*final(set))[handle],
        ),
        r is Ok ==> udp_of(socket_set_contents(*old(set)), handle).queued(
            (UdpDatagram { endpoint: remote, payload: data@ }),
        ).same_but_room(udp_of(socket_set_contents(*final(set)), handle)),
        r matches Err(e) ==> Some(crate::error::error_kind_of(e)) == udp_of(
            socket_set_contents(*old(set)),
            handle,
        ).send_error(remote, data@.len()) && udp_of(
            socket_set_contents(*old(set)),
            handle,
        ).same_but_room(udp_of(socket_set_contents(*final(set)), handle)),
        r matches Err(e) ==> (crate::error::error_kind_of(e)
            == crate::error::SmoltcpError::Exhausted && udp_of(
            socket_set_contents(*old(set)),
            handle,
        ).tx_room is Some) || socket_set_contents(*final(set)) == socket_set_contents(*old(set)),
        socket_set_grows(*final(set)) == socket_set_grows(*old(set)),
{
    let addr = match remote.addr {
        IpAddress::Unspecified => wire::IpAddress::Unspecified,
        IpAddress::Ipv4(a) => wire::IpAddress::Ipv4(wire::Ipv4Address(a.0)),
        IpAddress::Ipv6(a) => wire::IpAddress::Ipv6(wire::Ipv6Address(a.0)),
    };
    let endpoint = wire::IpEndpoint::new(addr, remote.port);
    set.get::<UdpSocket>(handle).send_slice(data, endpoint)
}

} // verus!
