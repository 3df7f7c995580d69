use async_smoltcp::{
    IpAddr, IpAddress, IpCidr, Ipv4Address, Ipv6Address, OnSocketData, SmolStack,
    SmolStackWithDevice, SocketAddr, SocketConnectionError, SocketReceiveError, SocketSendError,
    SpinError, VirtualTunInterface, VirtualTunReadError, VirtualTunWriteError, __feed__,
    DEFAULT_MTU,
};
use smoltcp::iface::{EthernetInterface, EthernetInterfaceBuilder, NeighborCache, Routes};
use smoltcp::phy::Loopback;
use smoltcp::socket::{
    SocketHandle, TcpSocket, TcpSocketBuffer, TcpState, UdpPacketMetadata, UdpSocket,
    UdpSocketBuffer,
};
use smoltcp::time::Instant;
use smoltcp::wire;
use std::cell::{Cell, RefCell};
use std::collections::{BTreeMap, VecDeque};
use std::rc::Rc;
use std::sync::Arc;

type OnTcp = Box<dyn Fn(&[u8]) -> Result<usize, SocketReceiveError>>;
type OnUdp = Box<dyn Fn(&[u8], IpAddr, u16) -> Result<usize, SocketReceiveError>>;
type Interface = EthernetInterface<'static, Loopback>;
type Device = SmolStack<Interface, OnTcp, OnUdp, VecDeque<u8>>;
type Stack = SmolStackWithDevice<(), Interface, Interface, OnTcp, OnUdp, VecDeque<u8>>;

const GATEWAY: Ipv4Address = Ipv4Address([127, 0, 0, 9]);

fn to_wire(cidr: &IpCidr) -> wire::IpCidr {
    match cidr.address {
        IpAddress::Ipv4(a) => {
            wire::IpCidr::new(wire::IpAddress::Ipv4(wire::Ipv4Address(a.0)), cidr.prefix_len)
        }
        IpAddress::Ipv6(a) => {
            wire::IpCidr::new(wire::IpAddress::Ipv6(wire::Ipv6Address(a.0)), cidr.prefix_len)
        }
        IpAddress::Unspecified => panic!("no address"),
    }
}

fn interface(routes: Routes<'static>, addrs: Vec<IpCidr>) -> Interface {
    let addrs: Vec<wire::IpCidr> = addrs.iter().map(to_wire).collect();
    EthernetInterfaceBuilder::new(Loopback::new())
        .ethernet_addr(wire::EthernetAddress([2, 0, 0, 0, 0, 1]))
        .neighbor_cache(NeighborCache::new(BTreeMap::new()))
        .ip_addrs(addrs)
        .routes(routes)
        .finalize()
}

fn loopback_addrs() -> Vec<IpCidr> {
    vec![IpCidr { address: IpAddress::Ipv4(Ipv4Address([127, 0, 0, 1])), prefix_len: 8 }]
}

fn stack() -> Stack {
    SmolStackWithDevice::new_tap(
        "tap0",
        None,
        Some(GATEWAY),
        None,
        None,
        loopback_addrs(),
        |_name: &str, routes: Routes<'static>, addrs: Vec<IpCidr>| interface(routes, addrs),
    )
}

fn inner(stack: &mut Stack) -> &mut Device {
    match stack {
        SmolStackWithDevice::Tap(s) => s,
        _ => unreachable!(),
    }
}

fn poll(stack: &mut Stack, rounds: i64) {
    let s = inner(stack);
    for i in 0..rounds {
        let _ = s.interface.poll(&mut s.sockets, Instant::from_millis(i * 20));
    }
}

fn local(port: u16) -> SocketAddr {
    SocketAddr { ip: IpAddr::V4([127, 0, 0, 1]), port }
}

fn collect(into: &Rc<RefCell<Vec<u8>>>) -> Arc<OnTcp> {
    let into = into.clone();
    let on: OnTcp = Box::new(move |data: &[u8]| {
        into.borrow_mut().extend_from_slice(data);
        Ok(data.len())
    });
    Arc::new(on)
}

fn quiet() -> Option<Arc<OnTcp>> {
    let on: OnTcp = Box::new(|data: &[u8]| Ok(data.len()));
    Some(Arc::new(on))
}

fn listener(stack: &mut Stack, port: u16) -> SocketHandle {
    let s = inner(stack);
    let mut socket = TcpSocket::new(
        TcpSocketBuffer::new(vec![0; 4096]),
        TcpSocketBuffer::new(vec![0; 4096]),
    );
    socket.listen(port).unwrap();
    s.sockets.add(socket)
}

/// A connected pair: a socket of the stack, and the one that it is connected to.
fn connected(stack: &mut Stack, on: Option<Arc<OnTcp>>) -> (SocketHandle, SocketHandle) {
    let server = listener(stack, 1234);
    let client = stack.add_tcp_socket(on).unwrap();
    assert!(stack.tcp_connect(client, local(1234), 40000).is_ok());
    poll(stack, 20);
    let state = inner(stack).sockets.get::<TcpSocket>(client).state();
    assert_eq!(state, TcpState::Established);
    (client, server)
}

#[test]
fn feed_hands_its_argument_over() {
    assert_eq!(__feed__(20, |x: u32| x + 1), 21);
}

#[test]
fn callbacks_are_kept_where_they_belong() {
    let t: OnSocketData<u8, u16> = OnSocketData::tcp(Some(Arc::new(3)));
    assert_eq!((t.on_tcp.map(|x| *x), t.on_udp.map(|x| *x)), (Some(3), None));
    let u: OnSocketData<u8, u16> = OnSocketData::udp(Some(Arc::new(4)));
    assert_eq!((u.on_tcp.map(|x| *x), u.on_udp.map(|x| *x)), (None, Some(4)));
    let n: OnSocketData<u8, u16> = OnSocketData::none();
    assert!(n.on_tcp.is_none() && n.on_udp.is_none());
}

#[test]
fn a_new_tcp_socket_is_closed_and_has_its_buffers() {
    let mut stack = stack();
    let handle = stack.add_tcp_socket(None).unwrap();
    let s = inner(&mut stack);
    let socket = s.sockets.get::<TcpSocket>(handle);
    assert_eq!(socket.state(), TcpState::Closed);
    assert_eq!(socket.recv_capacity(), 65000);
    assert_eq!(socket.send_capacity(), 65000);
    assert_eq!(socket.local_endpoint(), wire::IpEndpoint::UNSPECIFIED);
    assert_eq!((socket.send_queue(), socket.recv_queue()), (0, 0));
}

#[test]
fn a_new_udp_socket_is_unbound_and_has_no_slots() {
    let mut stack = stack();
    let handle = stack.add_udp_socket(None).unwrap();
    let s = inner(&mut stack);
    let socket = s.sockets.get::<UdpSocket>(handle);
    assert!(!socket.is_open());
    assert_eq!(socket.packet_recv_capacity(), 0);
    assert_eq!(socket.packet_send_capacity(), 0);
    assert_eq!(socket.payload_recv_capacity(), 1024);
    assert_eq!(socket.payload_send_capacity(), 1024);
}

#[test]
fn handles_are_fresh() {
    let mut stack = stack();
    let a = stack.add_tcp_socket(None).unwrap();
    let b = stack.add_udp_socket(None).unwrap();
    let c = stack.add_tcp_socket(None).unwrap();
    assert!(a != b && b != c && a != c);
}

#[test]
fn sending_on_a_closed_socket_is_illegal() {
    let mut stack = stack();
    let handle = stack.add_tcp_socket(quiet()).unwrap();
    match stack.tcp_socket_send(handle, b"abc") {
        Err(SocketSendError::Unknown(text)) => assert_eq!(text, "illegal operation"),
        other => panic!("{:?}", other),
    }
}

#[test]
fn connecting_needs_an_address_and_a_port() {
    let mut stack = stack();
    let handle = stack.add_tcp_socket(quiet()).unwrap();
    let nowhere = [
        (SocketAddr { ip: IpAddr::V4([0, 1, 2, 3]), port: 80 }, 40000),
        (SocketAddr { ip: IpAddr::V6([0; 16]), port: 80 }, 40000),
        (local(0), 40000),
        (local(80), 0),
    ];
    for (addr, port) in nowhere {
        match stack.tcp_connect(handle, addr, port) {
            Err(SocketConnectionError::Unknown(text)) => {
                assert_eq!(text, "unaddressable destination")
            }
            other => panic!("{:?}", other),
        }
    }
}

#[test]
fn a_socket_connects_once() {
    let mut stack = stack();
    let handle = stack.add_tcp_socket(quiet()).unwrap();
    assert!(stack.tcp_connect(handle, local(80), 40000).is_ok());
    {
        let s = inner(&mut stack);
        let socket = s.sockets.get::<TcpSocket>(handle);
        assert_eq!(socket.state(), TcpState::SynSent);
        assert_eq!(
            socket.remote_endpoint(),
            wire::IpEndpoint::new(wire::IpAddress::v4(127, 0, 0, 1), 80)
        );
        assert_eq!(
            socket.local_endpoint(),
            wire::IpEndpoint::new(wire::IpAddress::v4(0, 0, 0, 0), 40000)
        );
    }
    match stack.tcp_connect(handle, local(81), 40001) {
        Err(SocketConnectionError::Unknown(text)) => assert_eq!(text, "illegal operation"),
        other => panic!("{:?}", other),
    }
}

#[test]
fn a_version_six_connection_keeps_its_octets() {
    let mut stack = stack();
    let handle = stack.add_tcp_socket(quiet()).unwrap();
    let mut octets = [0u8; 16];
    octets[0] = 0xfe;
    octets[15] = 7;
    assert!(stack.tcp_connect(handle, SocketAddr { ip: IpAddr::V6(octets), port: 80 }, 40000).is_ok());
    let s = inner(&mut stack);
    let socket = s.sockets.get::<TcpSocket>(handle);
    assert_eq!(
        socket.remote_endpoint(),
        wire::IpEndpoint::new(wire::IpAddress::Ipv6(wire::Ipv6Address(octets)), 80)
    );
    assert_eq!(
        socket.local_endpoint(),
        wire::IpEndpoint::new(wire::IpAddress::Ipv6(wire::Ipv6Address([0; 16])), 40000)
    );
}

#[test]
fn data_travels_to_the_peer_in_order() {
    let mut stack = stack();
    let (client, server) = connected(&mut stack, quiet());
    assert_eq!(stack.tcp_socket_send(client, b"hello ").unwrap(), 6);
    assert_eq!(stack.tcp_socket_send(client, b"world").unwrap(), 5);
    assert_eq!(inner(&mut stack).sockets.get::<TcpSocket>(client).send_queue(), 11);
    poll(&mut stack, 20);
    let s = inner(&mut stack);
    let mut buffer = [0u8; 64];
    let n = s.sockets.get::<TcpSocket>(server).recv_slice(&mut buffer).unwrap();
    assert_eq!(&buffer[..n], b"hello world");
}

#[test]
fn a_full_buffer_takes_what_fits() {
    let mut stack = stack();
    let (client, _server) = connected(&mut stack, quiet());
    let data = vec![7u8; 65010];
    assert_eq!(stack.tcp_socket_send(client, &data).unwrap(), 65000);
    assert_eq!(stack.tcp_socket_send(client, b"more").unwrap(), 0);
}

#[test]
fn received_octets_reach_the_callback() {
    let got = Rc::new(RefCell::new(Vec::new()));
    let mut stack = stack();
    let (client, server) = connected(&mut stack, Some(collect(&got)));
    assert!(stack.spin_all().is_ok());
    assert!(got.borrow().is_empty());
    inner(&mut stack).sockets.get::<TcpSocket>(server).send_slice(b"from afar").unwrap();
    poll(&mut stack, 20);
    assert_eq!(inner(&mut stack).sockets.get::<TcpSocket>(client).recv_queue(), 9);
    assert!(stack.spin_all().is_ok());
    assert_eq!(*got.borrow(), b"from afar".to_vec());
    assert_eq!(inner(&mut stack).sockets.get::<TcpSocket>(client).recv_queue(), 0);
    assert!(stack.spin_all().is_ok());
    assert_eq!(*got.borrow(), b"from afar".to_vec());
}

/// Has `data` sent to the socket `to` and received there, without serving it.
fn transfer(stack: &mut Stack, from: SocketHandle, to: SocketHandle, data: &[u8]) {
    let before = inner(stack).sockets.get::<TcpSocket>(to).recv_queue();
    let mut sent = 0;
    for _ in 0..1000 {
        if inner(stack).sockets.get::<TcpSocket>(to).recv_queue() == before + data.len() {
            return;
        }
        sent += inner(stack).sockets.get::<TcpSocket>(from).send_slice(&data[sent..]).unwrap();
        poll(stack, 20);
    }
    panic!("the data did not arrive");
}

#[test]
fn what_lies_across_the_end_of_the_buffer_takes_two_rounds() {
    let got = Rc::new(RefCell::new(Vec::new()));
    let mut stack = stack();
    let (client, server) = connected(&mut stack, Some(collect(&got)));
    let first: Vec<u8> = (0..40000u32).map(|i| i as u8).collect();
    transfer(&mut stack, server, client, &first);
    assert!(stack.spin_all().is_ok());
    assert_eq!(*got.borrow(), first);
    got.borrow_mut().clear();
    let second: Vec<u8> = (0..40000u32).map(|i| (i * 7) as u8).collect();
    transfer(&mut stack, server, client, &second);
    assert!(stack.spin_all().is_ok());
    assert_eq!(*got.borrow(), second[..25000].to_vec());
    assert_eq!(inner(&mut stack).sockets.get::<TcpSocket>(client).recv_queue(), 15000);
    assert!(stack.spin_all().is_ok());
    assert_eq!(*got.borrow(), second);
    assert_eq!(inner(&mut stack).sockets.get::<TcpSocket>(client).recv_queue(), 0);
}

#[test]
fn what_the_callback_says_does_not_matter() {
    let calls = Rc::new(Cell::new(0));
    let seen = calls.clone();
    let on: OnTcp = Box::new(move |_data: &[u8]| {
        seen.set(seen.get() + 1);
        Err(SocketReceiveError::SocketNotReady)
    });
    let mut stack = stack();
    let (client, server) = connected(&mut stack, Some(Arc::new(on)));
    inner(&mut stack).sockets.get::<TcpSocket>(server).send_slice(b"xyz").unwrap();
    poll(&mut stack, 20);
    assert!(stack.spin_all().is_ok());
    assert_eq!(calls.get(), 1);
    assert_eq!(inner(&mut stack).sockets.get::<TcpSocket>(client).recv_queue(), 0);
}

#[test]
fn two_sockets_keep_their_own_callbacks() {
    let got_a = Rc::new(RefCell::new(Vec::new()));
    let got_b = Rc::new(RefCell::new(Vec::new()));
    let mut stack = stack();
    let server_a = listener(&mut stack, 1234);
    let server_b = listener(&mut stack, 1235);
    let a = stack.add_tcp_socket(Some(collect(&got_a))).unwrap();
    let b = stack.add_tcp_socket(Some(collect(&got_b))).unwrap();
    assert!(a != b);
    assert!(stack.tcp_connect(a, local(1234), 40000).is_ok());
    assert!(stack.tcp_connect(b, local(1235), 40001).is_ok());
    poll(&mut stack, 40);
    transfer(&mut stack, server_a, a, b"for a");
    assert!(stack.spin_all().is_ok());
    assert_eq!((got_a.borrow().as_slice(), got_b.borrow().as_slice()), (&b"for a"[..], &b""[..]));
    transfer(&mut stack, server_b, b, b"for b");
    assert!(stack.spin_all().is_ok());
    assert_eq!(
        (got_a.borrow().as_slice(), got_b.borrow().as_slice()),
        (&b"for a"[..], &b"for b"[..])
    );
}

#[test]
fn a_single_tcp_socket_can_be_spun() {
    let got = Rc::new(RefCell::new(Vec::new()));
    let mut stack = stack();
    let (client, server) = connected(&mut stack, quiet());
    inner(&mut stack).sockets.get::<TcpSocket>(server).send_slice(b"one").unwrap();
    poll(&mut stack, 20);
    let on = collect(&got);
    assert!(Stack::spin_tcp(inner(&mut stack), &client, on).is_ok());
    assert_eq!(*got.borrow(), b"one".to_vec());
}

fn bound_udp(stack: &mut Stack, port: u16, slots: usize) -> SocketHandle {
    let s = inner(stack);
    let mut socket = UdpSocket::new(
        UdpSocketBuffer::new(vec![UdpPacketMetadata::EMPTY; slots], vec![0; 64]),
        UdpSocketBuffer::new(vec![UdpPacketMetadata::EMPTY; slots], vec![0; 64]),
    );
    socket.bind(port).unwrap();
    s.sockets.add(socket)
}

#[test]
fn an_added_udp_socket_never_sends() {
    let mut stack = stack();
    let handle = stack.add_udp_socket(None).unwrap();
    match stack.udp_socket_send(handle, b"abc", local(53)) {
        Err(SocketSendError::Unknown(text)) => assert_eq!(text, "unaddressable destination"),
        other => panic!("{:?}", other),
    }
    inner(&mut stack).sockets.get::<UdpSocket>(handle).bind(5000).unwrap();
    assert!(matches!(
        stack.udp_socket_send(handle, b"abc", local(53)),
        Err(SocketSendError::Exhausted)
    ));
    assert!(matches!(
        stack.udp_socket_send(handle, b"", local(53)),
        Err(SocketSendError::Exhausted)
    ));
    match stack.udp_socket_send(handle, &[0; 1025], local(53)) {
        Err(SocketSendError::Unknown(text)) => assert_eq!(text, "truncated packet"),
        other => panic!("{:?}", other),
    }
}

#[test]
fn an_added_udp_socket_never_receives() {
    let mut stack = stack();
    let from = bound_udp(&mut stack, 5000, 4);
    let to = stack.add_udp_socket(None).unwrap();
    inner(&mut stack).sockets.get::<UdpSocket>(to).bind(53).unwrap();
    assert_eq!(stack.udp_socket_send(from, b"first", local(53)).unwrap(), 5);
    poll(&mut stack, 20);
    assert!(!inner(&mut stack).sockets.get::<UdpSocket>(to).can_recv());
    let on: OnUdp = Box::new(|_data: &[u8], _addr: IpAddr, _port: u16| panic!("nothing waits"));
    assert!(Stack::spin_udp(inner(&mut stack), &to, Arc::new(on)).is_ok());
}

#[test]
fn datagrams_are_queued_whole_or_not_at_all() {
    let mut stack = stack();
    let handle = bound_udp(&mut stack, 5000, 2);
    match stack.udp_socket_send(handle, b"x", local(0)) {
        Err(SocketSendError::Unknown(text)) => assert_eq!(text, "unaddressable destination"),
        other => panic!("{:?}", other),
    }
    match stack.udp_socket_send(handle, &[1; 65], local(53)) {
        Err(SocketSendError::Unknown(text)) => assert_eq!(text, "truncated packet"),
        other => panic!("{:?}", other),
    }
    assert_eq!(stack.udp_socket_send(handle, &[1; 40], local(53)).unwrap(), 40);
    assert!(matches!(
        stack.udp_socket_send(handle, &[1; 40], local(53)),
        Err(SocketSendError::Exhausted)
    ));
    assert_eq!(stack.udp_socket_send(handle, &[1; 24], local(53)).unwrap(), 24);
    assert!(matches!(
        stack.udp_socket_send(handle, b"", local(53)),
        Err(SocketSendError::Exhausted)
    ));
}

#[test]
fn a_datagram_reaches_the_callback_with_its_sender() {
    let got: Rc<RefCell<Vec<(Vec<u8>, IpAddr, u16)>>> = Rc::new(RefCell::new(Vec::new()));
    let mut stack = stack();
    let from = bound_udp(&mut stack, 5000, 4);
    let to = bound_udp(&mut stack, 53, 4);
    assert_eq!(stack.udp_socket_send(from, b"first", local(53)).unwrap(), 5);
    assert_eq!(stack.udp_socket_send(from, b"second", local(53)).unwrap(), 6);
    poll(&mut stack, 20);
    let sink = got.clone();
    let on: OnUdp = Box::new(move |data: &[u8], addr: IpAddr, port: u16| {
        sink.borrow_mut().push((data.to_vec(), addr, port));
        Ok(data.len())
    });
    let on = Arc::new(on);
    for _ in 0..3 {
        assert!(Stack::spin_udp(inner(&mut stack), &to, on.clone()).is_ok());
    }
    let sender = IpAddr::V4([127, 0, 0, 1]);
    assert_eq!(
        *got.borrow(),
        vec![(b"first".to_vec(), sender, 5000), (b"second".to_vec(), sender, 5000)]
    );
}

#[test]
fn a_refusing_datagram_callback_is_reported() {
    let mut stack = stack();
    let from = bound_udp(&mut stack, 5000, 4);
    let to = bound_udp(&mut stack, 53, 4);
    assert_eq!(stack.udp_socket_send(from, b"first", local(53)).unwrap(), 5);
    poll(&mut stack, 20);
    let on: OnUdp = Box::new(|_data: &[u8], _addr: IpAddr, _port: u16| {
        Err(SocketReceiveError::Unknown("no".to_string()))
    });
    assert!(matches!(
        Stack::spin_udp(inner(&mut stack), &to, Arc::new(on)),
        Err(SpinError::NoCallback)
    ));
}

#[test]
fn unregistered_sockets_are_not_served() {
    let mut stack = stack();
    let from = bound_udp(&mut stack, 5000, 4);
    let to = bound_udp(&mut stack, 53, 4);
    assert_eq!(stack.udp_socket_send(from, b"first", local(53)).unwrap(), 5);
    poll(&mut stack, 20);
    assert!(stack.spin_all().is_ok());
    assert!(inner(&mut stack).sockets.get::<UdpSocket>(to).can_recv());
}

#[test]
fn a_reused_handle_gets_its_new_callback() {
    let got = Rc::new(RefCell::new(Vec::new()));
    let mut stack = stack();
    let old = stack.add_tcp_socket(quiet()).unwrap();
    inner(&mut stack).sockets.remove(old);
    let server = {
        let client = stack.add_tcp_socket(Some(collect(&got))).unwrap();
        assert_eq!(client, old);
        let server = listener(&mut stack, 1234);
        assert!(stack.tcp_connect(client, local(1234), 40000).is_ok());
        server
    };
    poll(&mut stack, 20);
    inner(&mut stack).sockets.get::<TcpSocket>(server).send_slice(b"new").unwrap();
    poll(&mut stack, 20);
    assert!(stack.spin_all().is_ok());
    assert_eq!(*got.borrow(), b"new".to_vec());
}

#[test]
fn the_thread_is_never_told_to_stop() {
    let mut stack = stack();
    assert!(!stack.should_stop());
    let (client, _server) = connected(&mut stack, quiet());
    let _ = stack.tcp_socket_send(client, b"abc");
    assert!(stack.spin_all().is_ok());
    assert!(!stack.should_stop());
}

#[test]
fn a_tun_stack_is_built_of_its_routes_and_addresses() {
    let stack: Stack = SmolStackWithDevice::new_tun(
        "tun7",
        Some(IpCidr { address: IpAddress::Ipv4(Ipv4Address([10, 0, 0, 1])), prefix_len: 24 }),
        Some(GATEWAY),
        Some(Ipv6Address([3; 16])),
        Some(900),
        loopback_addrs(),
        |name: &str, mut routes: Routes<'static>, addrs: Vec<IpCidr>| {
            assert_eq!(name, "tun7");
            assert_eq!(addrs, loopback_addrs());
            let mut table = Vec::new();
            routes.update(|storage| {
                for (cidr, route) in storage.iter() {
                    table.push((*cidr, route.via_router, route.preferred_until, route.expires_at));
                }
            });
            assert_eq!(
                table,
                vec![
                    (
                        wire::IpCidr::new(wire::IpAddress::v4(0, 0, 0, 0), 0),
                        wire::IpAddress::v4(127, 0, 0, 9),
                        None,
                        None
                    ),
                    (
                        wire::IpCidr::new(wire::IpAddress::v6(0, 0, 0, 0, 0, 0, 0, 0), 0),
                        wire::IpAddress::Ipv6(wire::Ipv6Address([3; 16])),
                        None,
                        None
                    ),
                ]
            );
            interface(routes, addrs)
        },
    );
    assert!(matches!(stack, SmolStackWithDevice::Tun(_)));
}

type ReadCall = fn(&mut [u8]) -> Result<usize, VirtualTunReadError>;
type WriteCall = fn(usize) -> Result<(), VirtualTunWriteError>;
type Vpn = SmolStackWithDevice<usize, (), (), OnTcp, OnUdp, VecDeque<u8>>;

fn vpn(mtu: Option<usize>) -> Vpn {
    let read: ReadCall = |_buffer: &mut [u8]| Err(VirtualTunReadError::WouldBlock);
    let write: WriteCall = |_len: usize| Ok(());
    SmolStackWithDevice::new_from_vpn(
        "vpn0",
        None,
        Some(GATEWAY),
        None,
        mtu,
        loopback_addrs(),
        Arc::new(read),
        Arc::new(write),
        |device: VirtualTunInterface<ReadCall, WriteCall>,
         _routes: Routes<'static>,
         _addrs: Vec<IpCidr>| { device.capabilities().max_transmission_unit },
        |mut queue: VecDeque<u8>| {
            queue.push_back(1);
            queue
        },
        |queue: VecDeque<u8>| queue,
    )
}

#[test]
fn a_vpn_stack_has_the_default_packet_size() {
    match vpn(None) {
        SmolStackWithDevice::VirtualTun(s) => assert_eq!(s.interface, DEFAULT_MTU),
        _ => unreachable!(),
    }
    assert_eq!(DEFAULT_MTU, 1500);
    match vpn(Some(900)) {
        SmolStackWithDevice::VirtualTun(s) => assert_eq!(s.interface, 900),
        _ => unreachable!(),
    }
}

#[test]
fn a_vpn_stack_has_an_empty_write_queue() {
    let mut stack = vpn(None);
    let queue = stack.get_write_wake_deque();
    assert!(queue.is_empty());
    let _ = stack.add_tcp_socket(quiet());
    let _ = stack.add_udp_socket(None);
    assert!(stack.spin_all().is_ok());
    assert!(Arc::ptr_eq(&queue, &stack.get_write_wake_deque()));
}
