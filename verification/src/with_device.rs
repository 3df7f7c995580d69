//! A network stack together with the kind of device that it runs on.
use crate::addr::{IpAddr, IpAddress, IpCidr, Ipv4Address, Ipv6Address, SocketAddr};
use crate::routes::default_routes;
use crate::socket::{OnTcpSocketData, OnUdpSocketData, SocketConnectionError};
use crate::socket::{SocketReceiveError, SocketSendError};
use crate::stack::{SmolStack, SpinError, StackState};
use crate::virtual_tun::{OnVirtualTunRead, OnVirtualTunWrite, VirtualTunInterface, VirtualTunParts};
use smoltcp::iface::Routes;
use smoltcp::socket::SocketHandle;
use std::collections::VecDeque;
use std::sync::Arc;
use vstd::prelude::*;

verus! {

/// The largest packet that a device carries, unless it is told otherwise.
pub const DEFAULT_MTU: usize = 1500;

/// A network stack on a virtual TUN device, a TUN device or a TAP device, with interfaces of
/// types `V`, `N` and `P`.
pub enum SmolStackWithDevice<V, N, P, T, U, Q> {
    VirtualTun(SmolStack<V, T, U, Q>),
    Tun(SmolStack<N, T, U, Q>),
    Tap(SmolStack<P, T, U, Q>),
}

impl<V, N, P, T, U, Q> View for SmolStackWithDevice<V, N, P, T, U, Q> {
    type V = StackState<T, U, Q>;

    open spec fn view(&self) -> StackState<T, U, Q> {
        match *self {
            SmolStackWithDevice::VirtualTun(stack) => stack@,
            SmolStackWithDevice::Tun(stack) => stack@,
            SmolStackWithDevice::Tap(stack) => stack@,
        }
    }
}

/// The packet size that is asked for, or else the default.
pub open spec fn mtu_or_default(mtu: Option<usize>) -> usize {
    match mtu {
        Some(size) => size,
        None => DEFAULT_MTU,
    }
}

/// A size that is asked for is the size of the device, whatever it is; where none is asked for,
/// it is 1500.
pub proof fn lemma_asked_size()
    ensures
        forall|size: usize| #[trigger] mtu_or_default(Some(size)) == size,
        mtu_or_default(None) == 1500,
{
}

/// `routes` is the table with the default routes through the given gateways.
pub open spec fn routes_through(
    routes: Routes<'static>,
    v4: Option<Ipv4Address>,
    v6: Option<Ipv6Address>,
) -> bool {
    crate::routes::routes_table(routes) == crate::routes::default_table(v4->0, v6)
}

/// A table of the default routes through some gateways serves all IPv4 addresses through the one
/// and all IPv6 addresses through the other, if there is one, for good, and nothing else.
pub proof fn lemma_routes_through(
    routes: Routes<'static>,
    v4: Ipv4Address,
    v6: Option<Ipv6Address>,
    block: IpCidr,
    route: crate::routes::Route,
)
    requires
        routes_through(routes, Some(v4), v6),
        crate::routes::route_of(crate::routes::routes_table(routes), block) == Some(route),
    ensures
        block.prefix_len == 0,
        route.preferred_until is None && route.expires_at is None,
        block.address is Ipv4 || block.address is Ipv6 && v6 is Some,
        block.address matches IpAddress::Ipv4(a) ==> {
            &&& forall|i: int| 0 <= i < 4 ==> #[trigger] a.0@[i] == 0
            &&& route.via_router == IpAddress::Ipv4(v4)
        },
        block.address matches IpAddress::Ipv6(a) ==> {
            &&& forall|i: int| 0 <= i < 16 ==> #[trigger] a.0@[i] == 0
            &&& v6 matches Some(g)
            &&& route.via_router == IpAddress::Ipv6(g)
        },
{
}

/// `queue` is what `make` made of an empty queue.
pub open spec fn made_empty<W, Q, M: FnOnce(VecDeque<W>) -> Q>(make: M, queue: Q) -> bool {
    exists|d: VecDeque<W>| d@ == Seq::<W>::empty() && #[trigger] call_ensures(make, (d,), queue)
}

/// A queue that was made of an empty one is what the maker returned on a queue in which nothing
/// waits.
pub proof fn lemma_made_empty<W, Q, M: FnOnce(VecDeque<W>) -> Q>(make: M, queue: Q)
    requires
        made_empty(make, queue),
    ensures
        exists|d: VecDeque<W>| d@.len() == 0 && #[trigger] call_ensures(make, (d,), queue),
{
}

impl<V, N, P, T, U, Q> SmolStackWithDevice<V, N, P, T, U, Q> {
    /// `other` runs on the same interface of the same kind of device.
    pub open spec fn same_device(self, other: Self) -> bool {
        match (self, other) {
            (
                SmolStackWithDevice::VirtualTun(a),
                SmolStackWithDevice::VirtualTun(b),
            ) => a.interface_of() == b.interface_of(),
            (SmolStackWithDevice::Tun(a), SmolStackWithDevice::Tun(b)) => a.interface_of()
                == b.interface_of(),
            (SmolStackWithDevice::Tap(a), SmolStackWithDevice::Tap(b)) => a.interface_of()
                == b.interface_of(),
            _ => false,
        }
    }

    /// A stack on a virtual TUN device with the given callbacks, such as those that carry its
    /// packets over a VPN. `build` makes the interface of the device, the routes and the
    /// addresses that it is handed; `make_read` and `make_write` each make one of the queues of
    /// waiting tasks of an empty one. `_address` has no effect.
    pub fn new_from_vpn<R, X, W, B, MR, MW>(
        interface_name: &str,
        _address: Option<IpCidr>,
        default_v4_gateway: Option<Ipv4Address>,
        default_v6_gateway: Option<Ipv6Address>,
        mtu: Option<usize>,
        ip_addrs: Vec<IpCidr>,
        on_virtual_tun_read: OnVirtualTunRead<R>,
        on_virtual_tun_write: OnVirtualTunWrite<X>,
        build: B,
        make_read: MR,
        make_write: MW,
    ) -> (r: Self) where
        B: FnOnce(VirtualTunInterface<R, X>, Routes<'static>, Vec<IpCidr>) -> V,
        MR: FnOnce(VecDeque<W>) -> Q,
        MW: FnOnce(VecDeque<W>) -> Q,

        requires
            default_v4_gateway is Some,
            forall|device: VirtualTunInterface<R, X>, routes: Routes<'static>|
                device@ == (VirtualTunParts {
                    mtu: mtu_or_default(mtu),
                    read: on_virtual_tun_read,
                    write: on_virtual_tun_write,
                }) && routes_through(routes, default_v4_gateway, default_v6_gateway)
                    ==> #[trigger] call_requires(build, (device, routes, ip_addrs)),
            forall|d: VecDeque<W>|
                d@ == Seq::<W>::empty() ==> #[trigger] call_requires(make_read, (d,)),
            forall|d: VecDeque<W>|
                d@ == Seq::<W>::empty() ==> #[trigger] call_requires(make_write, (d,)),
        ensures
            r is VirtualTun,
            exists|device: VirtualTunInterface<R, X>, routes: Routes<'static>|
                {
                    &&& #[trigger] device@ == (VirtualTunParts {
                        mtu: mtu_or_default(mtu),
                        read: on_virtual_tun_read,
                        write: on_virtual_tun_write,
                    })
                    &&& #[trigger] routes_through(routes, default_v4_gateway, default_v6_gateway)
                    &&& call_ensures(
                        build,
                        (device, routes, ip_addrs),
                        r->VirtualTun_0.interface_of(),
                    )
                },
            r@.read_wake_deque is Some,
            made_empty(make_read, *r@.read_wake_deque->0),
            r@.write_wake_deque is Some,
            made_empty(make_write, *r@.write_wake_deque->0),
            r@ == StackState::<T, U, Q>::fresh(r@.read_wake_deque, r@.write_wake_deque),
    {
        let mtu: usize = mtu.unwrap_or(DEFAULT_MTU);
        let read_wake_deque = Arc::new(make_read(VecDeque::new()));
        let write_wake_deque = Arc::new(make_write(VecDeque::new()));
        let device = VirtualTunInterface::new(
            interface_name,
            on_virtual_tun_read,
            on_virtual_tun_write,
            mtu,
        ).unwrap();
        let routes = default_routes(default_v4_gateway, default_v6_gateway);
        assert(routes_through(routes, default_v4_gateway, default_v6_gateway));
        let interface = build(device, routes, ip_addrs);
        SmolStackWithDevice::VirtualTun(
            SmolStack::new(interface, Some(read_wake_deque), Some(write_wake_deque)),
        )
    }

    /// A stack on a TAP device. `build` makes the interface of the name, the routes and the
    /// addresses that it is handed. `_address` and `_mtu` have no effect, and no tasks wait.
    pub fn new_tap<B: FnOnce(&str, Routes<'static>, Vec<IpCidr>) -> P>(
        interface_name: &str,
        _address: Option<IpCidr>,
        default_v4_gateway: Option<Ipv4Address>,
        default_v6_gateway: Option<Ipv6Address>,
        _mtu: Option<usize>,
        ip_addrs: Vec<IpCidr>,
        build: B,
    ) -> (r: Self)
        requires
            default_v4_gateway is Some,
            forall|routes: Routes<'static>|
                routes_through(routes, default_v4_gateway, default_v6_gateway)
                    ==> #[trigger] call_requires(build, (interface_name, routes, ip_addrs)),
        ensures
            r is Tap,
            exists|routes: Routes<'static>|
                #[trigger] routes_through(routes, default_v4_gateway, default_v6_gateway)
                    && call_ensures(
                    build,
                    (interface_name, routes, ip_addrs),
                    r->Tap_0.interface_of(),
                ),
            r@ == StackState::<T, U, Q>::fresh(None, None),
    {
        let routes = default_routes(default_v4_gateway, default_v6_gateway);
        assert(routes_through(routes, default_v4_gateway, default_v6_gateway));
        let interface = build(interface_name, routes, ip_addrs);
        SmolStackWithDevice::Tap(SmolStack::new(interface, None, None))
    }

    /// A stack on a TUN device. `build` makes the interface of the name, the routes and the
    /// addresses that it is handed. `_address` and `_mtu` have no effect, and no tasks wait.
    pub fn new_tun<B: FnOnce(&str, Routes<'static>, Vec<IpCidr>) -> N>(
        interface_name: &str,
        _address: Option<IpCidr>,
        default_v4_gateway: Option<Ipv4Address>,
        default_v6_gateway: Option<Ipv6Address>,
        _mtu: Option<usize>,
        ip_addrs: Vec<IpCidr>,
        build: B,
    ) -> (r: Self)
        requires
            default_v4_gateway is Some,
            forall|routes: Routes<'static>|
                routes_through(routes, default_v4_gateway, default_v6_gateway)
                    ==> #[trigger] call_requires(build, (interface_name, routes, ip_addrs)),
        ensures
            r is Tun,
            exists|routes: Routes<'static>|
                #[trigger] routes_through(routes, default_v4_gateway, default_v6_gateway)
                    && call_ensures(
                    build,
                    (interface_name, routes, ip_addrs),
                    r->Tun_0.interface_of(),
                ),
            r@ == StackState::<T, U, Q>::fresh(None, None),
    {
        let routes = default_routes(default_v4_gateway, default_v6_gateway);
        assert(routes_through(routes, default_v4_gateway, default_v6_gateway));
        let interface = build(interface_name, routes, ip_addrs);
        SmolStackWithDevice::Tun(SmolStack::new(interface, None, None))
    }

    /// The queue of the tasks that wait to write. Only a stack on a virtual TUN device has one.
    pub fn get_write_wake_deque(&self) -> (r: Arc<Q>)
        requires
            self@.write_wake_deque is Some,
        ensures
            r == self@.write_wake_deque->0,
    {
        match self {
            SmolStackWithDevice::VirtualTun(stack) => stack.get_write_wake_deque(),
            SmolStackWithDevice::Tun(stack) => stack.get_write_wake_deque(),
            SmolStackWithDevice::Tap(stack) => stack.get_write_wake_deque(),
        }
    }

    /// Whether the thread that serves the stack is to stop.
    pub fn should_stop(&self) -> (r: bool)
        ensures
            r == self@.stop,
    {
        match self {
            SmolStackWithDevice::VirtualTun(stack) => stack.should_stop(),
            SmolStackWithDevice::Tun(stack) => stack.should_stop(),
            SmolStackWithDevice::Tap(stack) => stack.should_stop(),
        }
    }

    /// Adds a TCP socket, which is served through `on_tcp_socket_data` when the stack is spun.
    pub fn add_tcp_socket(&mut self, on_tcp_socket_data: Option<OnTcpSocketData<T>>) -> (r: Result<SocketHandle, ()>)
        requires
            old(self)@.grows,
        ensures
            r is Ok,
            crate::stack::tcp_socket_added(old(self)@, on_tcp_socket_data, r->Ok_0, final(self)@),
            old(self).same_device(*final(self)),
    {
        match self {
            SmolStackWithDevice::VirtualTun(stack) => stack.add_tcp_socket(on_tcp_socket_data),
            SmolStackWithDevice::Tun(stack) => stack.add_tcp_socket(on_tcp_socket_data),
            SmolStackWithDevice::Tap(stack) => stack.add_tcp_socket(on_tcp_socket_data),
        }
    }

    /// Adds a UDP socket. It is not served when the stack is spun, and `on_socket_data` is
    /// dropped.
    pub fn add_udp_socket(&mut self, on_socket_data: Option<OnUdpSocketData<U>>) -> (r: Result<SocketHandle, ()>)
        requires
            old(self)@.grows,
        ensures
            r is Ok,
            crate::stack::udp_socket_added(old(self)@, r->Ok_0, final(self)@),
            old(self).same_device(*final(self)),
    {
        match self {
            SmolStackWithDevice::VirtualTun(stack) => stack.add_udp_socket(on_socket_data),
            SmolStackWithDevice::Tun(stack) => stack.add_udp_socket(on_socket_data),
            SmolStackWithDevice::Tap(stack) => stack.add_udp_socket(on_socket_data),
        }
    }

    /// Queues as much of `data` on a TCP socket as fits, and says how much that was.
    pub fn tcp_socket_send(&mut self, socket_handle: SocketHandle, data: &[u8]) -> (r: Result<usize, SocketSendError>)
        requires
            old(self)@.has_tcp(socket_handle),
        ensures
            crate::stack::tcp_sent(old(self)@, socket_handle, data@, r, final(self)@),
            old(self).same_device(*final(self)),
    {
        match self {
            SmolStackWithDevice::VirtualTun(stack) => stack.tcp_socket_send(socket_handle, data),
            SmolStackWithDevice::Tun(stack) => stack.tcp_socket_send(socket_handle, data),
            SmolStackWithDevice::Tap(stack) => stack.tcp_socket_send(socket_handle, data),
        }
    }

    /// Queues `data` on a UDP socket as one datagram to `addr`.
    pub fn udp_socket_send(&mut self, socket_handle: SocketHandle, data: &[u8], addr: SocketAddr) -> (r: Result<usize, SocketSendError>)
        requires
            old(self)@.has_udp(socket_handle),
        ensures
            crate::stack::udp_sent(old(self)@, socket_handle, data@, addr, r, final(self)@),
            old(self).same_device(*final(self)),
    {
        match self {
            SmolStackWithDevice::VirtualTun(stack) => stack.udp_socket_send(socket_handle, data, addr),
            SmolStackWithDevice::Tun(stack) => stack.udp_socket_send(socket_handle, data, addr),
            SmolStackWithDevice::Tap(stack) => stack.udp_socket_send(socket_handle, data, addr),
        }
    }

    /// Begins a connection of a TCP socket to `addr`, from the port `src_port`.
    pub fn tcp_connect(&mut self, socket_handle: SocketHandle, addr: SocketAddr, src_port: u16) -> (r: Result<(), SocketConnectionError>)
        requires
            old(self)@.has_tcp(socket_handle),
        ensures
            crate::stack::tcp_connected(old(self)@, socket_handle, addr, src_port, r, final(self)@),
            old(self).same_device(*final(self)),
    {
        match self {
            SmolStackWithDevice::VirtualTun(stack) => stack.tcp_connect(socket_handle, addr, src_port),
            SmolStackWithDevice::Tun(stack) => stack.tcp_connect(socket_handle, addr, src_port),
            SmolStackWithDevice::Tap(stack) => stack.tcp_connect(socket_handle, addr, src_port),
        }
    }
}

impl<V, N, P, T, U, Q> SmolStackWithDevice<V, N, P, T, U, Q> where
    T: Fn(&[u8]) -> Result<usize, SocketReceiveError>,
 {
    /// Hands octets that wait on a TCP socket to its callback.
    pub fn spin_tcp<DeviceT>(
        stack: &mut SmolStack<DeviceT, T, U, Q>,
        socket_handle: &SocketHandle,
        on_tcp_socket_data: OnTcpSocketData<T>,
    ) -> (r: Result<(), SpinError>)
        requires
            old(stack)@.has_tcp(*socket_handle),
            crate::stack::takes_octets(*on_tcp_socket_data, old(stack)@.tcp(*socket_handle)),
        ensures
            r is Ok,
            final(stack)@.has_tcp(*socket_handle),
            final(stack)@ == old(stack)@.with_socket(
                *socket_handle,
                final(stack)@.sockets[*socket_handle],
            ).with_tcp_calls(final(stack)@.tcp_calls),
            crate::stack::calls_added(
                old(stack)@.tcp_calls,
                *socket_handle,
                crate::stack::tcp_handed(*on_tcp_socket_data, old(stack)@.tcp(*socket_handle)),
                final(stack)@.tcp_calls,
            ),
            crate::stack::tcp_spun(
                *on_tcp_socket_data,
                old(stack)@.tcp(*socket_handle),
                final(stack)@.tcp(*socket_handle),
            ),
            final(stack).interface_of() == old(stack).interface_of(),
    {
        stack.spin_tcp(socket_handle, on_tcp_socket_data)
    }
}

impl<V, N, P, T, U, Q> SmolStackWithDevice<V, N, P, T, U, Q> where
    U: Fn(&[u8], IpAddr, u16) -> Result<usize, SocketReceiveError>,
 {
    /// Hands the datagram that waits first on a UDP socket to its callback.
    pub fn spin_udp<DeviceT>(
        stack: &mut SmolStack<DeviceT, T, U, Q>,
        socket_handle: &SocketHandle,
        on_udp_socket_data: OnUdpSocketData<U>,
    ) -> (r: Result<(), SpinError>)
        requires
            old(stack)@.has_udp(*socket_handle),
            crate::stack::udp_servable(old(stack)@.udp(*socket_handle)),
            crate::stack::takes_datagram(*on_udp_socket_data, old(stack)@.udp(*socket_handle)),
        ensures
            final(stack)@.has_udp(*socket_handle),
            final(stack)@ == old(stack)@.with_socket(
                *socket_handle,
                final(stack)@.sockets[*socket_handle],
            ).with_udp_calls(final(stack)@.udp_calls),
            crate::stack::calls_added(
                old(stack)@.udp_calls,
                *socket_handle,
                crate::stack::udp_handed(*on_udp_socket_data, old(stack)@.udp(*socket_handle)),
                final(stack)@.udp_calls,
            ),
            crate::stack::udp_spun(
                *on_udp_socket_data,
                old(stack)@.udp(*socket_handle),
                final(stack)@.udp(*socket_handle),
                r,
            ),
            final(stack).interface_of() == old(stack).interface_of(),
    {
        stack.spin_udp(socket_handle, on_udp_socket_data)
    }
}

impl<V, N, P, T, U, Q> SmolStackWithDevice<V, N, P, T, U, Q> where
    T: Fn(&[u8]) -> Result<usize, SocketReceiveError>,
    U: Fn(&[u8], IpAddr, u16) -> Result<usize, SocketReceiveError>,
 {
    /// Serves every registered socket once. What a single socket answers is dropped.
    pub fn spin_all(&mut self) -> (r: Result<(), SpinError>)
        requires
            crate::stack::can_spin(old(self)@),
        ensures
            r is Ok,
            crate::stack::spun(old(self)@, final(self)@),
            old(self).same_device(*final(self)),
    {
        match self {
            SmolStackWithDevice::VirtualTun(stack) => stack.spin_all(),
            SmolStackWithDevice::Tun(stack) => stack.spin_all(),
            SmolStackWithDevice::Tap(stack) => stack.spin_all(),
        }
    }
}

} // verus!
