use async_smoltcp::handle_map::HandleMap;
use async_smoltcp::run::{RunEvent, RunStep};
use async_smoltcp::smol_socket::{ReadPoll, SmolSocket, SocketQueue};
use async_smoltcp::virtual_tun::{call_once_safe, Medium, OnVirtualTunWrite, TxSlot};
use async_smoltcp::vpn::{
    on_virtual_tun_read, on_virtual_tun_write, store_packet, PhyReceiveError, PhySendError,
};
use async_smoltcp::{
    IpAddr, IpAddress, IpEndpoint, Ipv4Address, Ipv6Address, SmolStackWithDevice, SocketAddr,
    SocketConnectionError, SocketReceiveError, SocketSendError, VirtualTunInterface,
    VirtualTunReadError, VirtualTunWriteError,
};
use smoltcp::iface::Routes;
use smoltcp::socket::{SocketHandle, SocketSet, TcpSocket, TcpSocketBuffer};
use std::cell::RefCell;
use std::rc::Rc;
use std::sync::{Arc, Mutex};
use tokio::io::ReadBuf;

#[test]
fn addresses_turn_into_endpoints_and_back() {
    let a = SocketAddr { ip: IpAddr::V4([1, 2, 3, 4]), port: 80 };
    let e = a.to_endpoint();
    assert_eq!(e, IpEndpoint { addr: IpAddress::Ipv4(Ipv4Address([1, 2, 3, 4])), port: 80 });
    assert_eq!(e.addr.to_concrete(), Some(a.ip));
    let b = SocketAddr { ip: IpAddr::V6([9; 16]), port: 1 };
    assert_eq!(b.to_endpoint().addr, IpAddress::Ipv6(Ipv6Address([9; 16])));
    assert_eq!(b.to_endpoint().addr.to_concrete(), Some(b.ip));
    assert_eq!(IpAddress::Unspecified.to_concrete(), None);
}

fn all_errors() -> Vec<(smoltcp::Error, &'static str)> {
    vec![
        (smoltcp::Error::Illegal, "illegal operation"),
        (smoltcp::Error::Unaddressable, "unaddressable destination"),
        (smoltcp::Error::Finished, "operation finished"),
        (smoltcp::Error::Truncated, "truncated packet"),
        (smoltcp::Error::Checksum, "checksum error"),
        (smoltcp::Error::Unrecognized, "unrecognized packet"),
        (smoltcp::Error::Fragmented, "fragmented packet"),
        (smoltcp::Error::Malformed, "malformed packet"),
        (smoltcp::Error::Dropped, "dropped by socket"),
    ]
}

#[test]
fn send_errors_are_reported_by_their_text() {
    assert!(matches!(
        SocketSendError::from(smoltcp::Error::Exhausted),
        SocketSendError::Exhausted
    ));
    for (e, text) in all_errors() {
        match SocketSendError::from(e) {
            SocketSendError::Unknown(t) => assert_eq!(t, text),
            other => panic!("{:?}", other),
        }
    }
}

#[test]
fn connection_errors_are_reported_by_their_text() {
    assert!(matches!(
        SocketConnectionError::from(smoltcp::Error::Exhausted),
        SocketConnectionError::Exhausted
    ));
    for (e, text) in all_errors() {
        match SocketConnectionError::from(e) {
            SocketConnectionError::Unknown(t) => assert_eq!(t, text),
            other => panic!("{:?}", other),
        }
    }
}

fn some_handles(n: usize) -> Vec<SocketHandle> {
    let mut set = SocketSet::new(vec![]);
    (0..n)
        .map(|_| {
            set.add(TcpSocket::new(
                TcpSocketBuffer::new(vec![0; 1]),
                TcpSocketBuffer::new(vec![0; 1]),
            ))
        })
        .collect()
}

#[test]
fn a_handle_map_keeps_the_last_value() {
    let h = some_handles(3);
    let mut map = HandleMap::new();
    assert!(map.get(&h[0]).is_none());
    map.insert(h[1], "b");
    map.insert(h[0], "a");
    map.insert(h[1], "c");
    assert_eq!(map.get(&h[0]), Some(&"a"));
    assert_eq!(map.get(&h[1]), Some(&"c"));
    assert_eq!(map.get(&h[2]), None);
    let mut keys = map.handles();
    keys.sort();
    assert_eq!(keys, vec![h[0], h[1]]);
}

#[test]
fn packets_are_read_in_order() {
    let mut queue: SocketQueue<u32> = SocketQueue::new();
    assert_eq!(queue.next_len(), None);
    for data in [&b"ab"[..], &b""[..], &b"cde"[..]] {
        let (said, woken) = queue.on_data(data);
        assert_eq!(said.unwrap(), data.len());
        assert_eq!(woken, None);
    }
    let mut storage = [0u8; 8];
    let mut buf = ReadBuf::new(&mut storage);
    assert_eq!(queue.next_len(), Some(2));
    assert_eq!(queue.poll_read(&mut buf, 1), ReadPoll::Ready);
    assert_eq!(buf.filled(), b"ab");
    assert_eq!(queue.poll_read(&mut buf, 1), ReadPoll::Ready);
    assert_eq!(queue.poll_read(&mut buf, 1), ReadPoll::Ready);
    assert_eq!(buf.filled(), b"abcde");
    assert_eq!(buf.remaining(), 3);
    assert_eq!(queue.poll_read(&mut buf, 1), ReadPoll::Pending);
    assert_eq!(buf.filled(), b"abcde");
}

#[test]
fn a_packet_that_does_not_fit_is_not_read() {
    let mut queue: SocketQueue<u32> = SocketQueue::new();
    assert_eq!(queue.on_data(b"abc").0.unwrap(), 3);
    let mut storage = [0u8; 2];
    let mut small = ReadBuf::new(&mut storage);
    assert_eq!(queue.try_poll_read(&mut small, 1), None);
    assert!(small.filled().is_empty());
    assert_eq!(queue.next_len(), Some(3));
    let mut storage = [0u8; 3];
    let mut large = ReadBuf::new(&mut storage);
    assert_eq!(queue.try_poll_read(&mut large, 1), Some(ReadPoll::Ready));
    assert_eq!(large.filled(), b"abc");
    assert_eq!(queue.try_poll_read(&mut large, 1), Some(ReadPoll::Pending));
    assert_eq!(queue.on_data(b"d").1, Some(1));
}

#[test]
fn waiting_tasks_are_woken_in_order() {
    let mut queue: SocketQueue<u32> = SocketQueue::new();
    let mut storage = [0u8; 8];
    let mut buf = ReadBuf::new(&mut storage);
    assert_eq!(queue.poll_read(&mut buf, 1), ReadPoll::Pending);
    assert_eq!(queue.poll_read(&mut buf, 2), ReadPoll::Pending);
    assert_eq!(queue.on_data(b"x").1, Some(1));
    assert_eq!(queue.on_data(b"y").1, Some(2));
    assert_eq!(queue.on_data(b"z").1, None);
    assert_eq!(queue.poll_read(&mut buf, 3), ReadPoll::Ready);
    assert_eq!(buf.filled(), b"x");
}

type OnTcp = Box<dyn Fn(&[u8]) -> Result<usize, SocketReceiveError>>;
type OnUdp = Box<dyn Fn(&[u8], IpAddr, u16) -> Result<usize, SocketReceiveError>>;
type Stack = SmolStackWithDevice<(), (), (), OnTcp, OnUdp, ()>;

fn stack() -> Stack {
    SmolStackWithDevice::new_tun(
        "tun0",
        None,
        Some(Ipv4Address([10, 0, 0, 1])),
        None,
        None,
        vec![],
        |_name: &str, _routes: Routes<'static>, _addrs: Vec<async_smoltcp::IpCidr>| (),
    )
}

#[test]
fn a_socket_for_tasks_is_registered_with_its_queue() {
    let mut stack = stack();
    let shared = Arc::new("the stack");
    let socket: SmolSocket<&str, Mutex<SocketQueue<u32>>> = SmolSocket::new(
        shared.clone(),
        &mut stack,
        |queue: SocketQueue<u32>| Mutex::new(queue),
        |queue: Arc<Mutex<SocketQueue<u32>>>| {
            let on: OnTcp = Box::new(move |data: &[u8]| queue.lock().unwrap().on_data(data).0);
            on
        },
    )
    .unwrap();
    assert!(Arc::ptr_eq(socket.stack(), &shared));
    assert_eq!(socket.queue().lock().unwrap().next_len(), None);
    assert_eq!(socket.poll_write(&mut stack, b"abc"), 3);
    match socket.tcp_socket_send(&mut stack, b"abc") {
        Err(SocketSendError::Unknown(text)) => assert_eq!(text, "illegal operation"),
        other => panic!("{:?}", other),
    }
    let addr = SocketAddr { ip: IpAddr::V4([10, 0, 0, 2]), port: 80 };
    assert!(socket.tcp_connect(&mut stack, addr, 40000).is_ok());
    assert!(socket.tcp_connect(&mut stack, addr, 40000).is_err());
    match stack {
        SmolStackWithDevice::Tun(mut s) => {
            let socket = s.sockets.get::<TcpSocket>(socket.socket_handle());
            assert_eq!(socket.send_queue(), 0);
        }
        _ => unreachable!(),
    }
}

#[test]
fn two_sockets_for_tasks_have_their_own_queues() {
    let mut stack = stack();
    let shared = Arc::new(());
    let mut make = || -> SmolSocket<(), Mutex<SocketQueue<u32>>> {
        SmolSocket::new(
            shared.clone(),
            &mut stack,
            |queue: SocketQueue<u32>| Mutex::new(queue),
            |queue: Arc<Mutex<SocketQueue<u32>>>| {
                let on: OnTcp = Box::new(move |data: &[u8]| queue.lock().unwrap().on_data(data).0);
                on
            },
        )
        .unwrap()
    };
    let a = make();
    let b = make();
    assert!(a.socket_handle() != b.socket_handle());
    assert!(!Arc::ptr_eq(a.queue(), b.queue()));
    let mut storage = [0u8; 8];
    let mut buf = ReadBuf::new(&mut storage);
    assert_eq!(b.queue().lock().unwrap().poll_read(&mut buf, 7), ReadPoll::Pending);
    assert_eq!(a.queue().lock().unwrap().on_data(b"for a").1, None);
    assert_eq!(a.queue().lock().unwrap().next_len(), Some(5));
    assert_eq!(b.queue().lock().unwrap().next_len(), None);
    assert_eq!(b.queue().lock().unwrap().on_data(b"b").1, Some(7));
}

#[test]
fn a_round_polls_serves_wakes_and_rests() {
    let step: RunStep<u8> = RunStep::first();
    assert!(matches!(step, RunStep::Poll));
    let step = step.next(RunEvent::Done);
    assert!(matches!(step, RunStep::SpinAll));
    let step = step.next(RunEvent::Done);
    assert!(matches!(step, RunStep::PopWaker));
    let step = step.next(RunEvent::Popped(Some(5)));
    assert!(matches!(step, RunStep::Wake(5)));
    let step = step.next(RunEvent::Done);
    assert!(matches!(step, RunStep::Sleep(300)));
    let step = step.next(RunEvent::Done);
    assert!(matches!(step, RunStep::CheckStop));
    assert!(matches!(step.next(RunEvent::ShouldStop(false)), RunStep::Poll));
    let check: RunStep<u8> = RunStep::CheckStop;
    assert!(matches!(check.next(RunEvent::ShouldStop(true)), RunStep::Stop));
    let pop: RunStep<u8> = RunStep::PopWaker;
    assert!(matches!(pop.next(RunEvent::Popped(None)), RunStep::Sleep(300)));
}

type Read = Box<dyn Fn(&mut [u8]) -> Result<usize, VirtualTunReadError>>;
type Write = Box<dyn Fn(&mut dyn FnMut(&mut [u8]), usize) -> Result<(), VirtualTunWriteError>>;

fn device(read: Read, sent: Rc<RefCell<Vec<Vec<u8>>>>) -> VirtualTunInterface<Read, Write> {
    let write: Write = Box::new(move |f: &mut dyn FnMut(&mut [u8]), size: usize| {
        on_virtual_tun_write(
            |buffer: &mut [u8]| f(buffer),
            size,
            |packet: &[u8]| -> Result<(), PhySendError> {
                sent.borrow_mut().push(packet.to_vec());
                Ok(())
            },
        )
    });
    VirtualTunInterface::new("vpn", Arc::new(read), Arc::new(write), 16).unwrap()
}

#[test]
fn a_packet_is_received_as_it_was_stored() {
    let read: Read = Box::new(|buffer: &mut [u8]| {
        assert_eq!(buffer, &[0u8; 16]);
        on_virtual_tun_read(buffer, |b: &mut [u8], n: &mut usize| {
            *n = store_packet(b, b"packet");
            Ok(())
        })
    });
    let device = device(read, Rc::new(RefCell::new(Vec::new())));
    assert_eq!(device.capabilities().max_transmission_unit, 16);
    assert_eq!(device.medium(), Medium::Ip);
    let (rx, _tx) = device.receive().unwrap();
    assert_eq!(rx.consume(|packet: &mut [u8]| packet.to_vec()), b"packet".to_vec());
}

#[test]
fn a_packet_longer_than_the_buffer_is_filled_up_with_zeros() {
    let read: Read = Box::new(|buffer: &mut [u8]| {
        for b in buffer.iter_mut() {
            *b = 1;
        }
        Ok(18)
    });
    let device = device(read, Rc::new(RefCell::new(Vec::new())));
    let (rx, _tx) = device.receive().unwrap();
    let packet = rx.consume(|packet: &mut [u8]| packet.to_vec());
    assert_eq!(packet[..16], [1u8; 16]);
    assert_eq!(packet[16..], [0u8; 2]);
}

#[test]
fn a_packet_is_cut_to_the_length_that_was_said() {
    let read = |b: &mut [u8]| -> Result<usize, VirtualTunReadError> {
        b[0] = 7;
        b[1] = 8;
        b[2] = 9;
        Ok(2)
    };
    let device = VirtualTunInterface::new("t", Arc::new(read), Arc::new(()), 4).unwrap();
    let (rx, _tx) = device.receive().unwrap();
    assert_eq!(rx.consume(|packet: &mut [u8]| packet.to_vec()), vec![7, 8]);
}

/// Sends a packet of `len` octets through a writing callback that hands out a buffer of its own,
/// each octet of which is `octet`.
fn sent_over<T>(octet: u8, len: usize, f: impl FnOnce(&mut [u8]) -> T) -> (T, Vec<u8>) {
    let sent = Rc::new(RefCell::new(Vec::new()));
    let sink = sent.clone();
    let write: Write = Box::new(move |g: &mut dyn FnMut(&mut [u8]), n: usize| {
        let mut buffer = vec![octet; n];
        g(&mut buffer);
        sink.borrow_mut().push(buffer);
        Ok(())
    });
    let read: Read = Box::new(|_buffer: &mut [u8]| Err(VirtualTunReadError::WouldBlock));
    let device = VirtualTunInterface::new("t", Arc::new(read), Arc::new(write), 1500).unwrap();
    let answer = device.transmit().unwrap().consume(
        len,
        f,
        |write: OnVirtualTunWrite<Write>, mut slot: TxSlot<_, _>, len: usize| {
            let written = write(&mut |buffer: &mut [u8]| slot.fill(buffer), len);
            (slot, written)
        },
    );
    assert_eq!(sent.borrow().len(), 1);
    let packet = sent.borrow()[0].clone();
    (answer, packet)
}

#[test]
fn a_packet_is_written_into_the_buffer_of_the_callback() {
    let (answer, packet) = sent_over(5, 3, |b: &mut [u8]| -> smoltcp::Result<Vec<u8>> {
        let before = b.to_vec();
        b[1] = 1;
        Ok(before)
    });
    assert_eq!(answer, Ok(vec![5, 5, 5]));
    assert_eq!(packet, vec![5, 1, 5]);
}

#[test]
fn the_error_of_the_writer_comes_back_as_it_is() {
    let (answer, packet) =
        sent_over(0, 2, |_b: &mut [u8]| Err::<(), smoltcp::Error>(smoltcp::Error::Exhausted));
    assert_eq!(answer, Err(smoltcp::Error::Exhausted));
    assert_eq!(packet, vec![0, 0]);
}

#[test]
fn nothing_is_received_where_the_read_would_block() {
    let read: Read = Box::new(|buffer: &mut [u8]| {
        on_virtual_tun_read(buffer, |_b: &mut [u8], _n: &mut usize| {
            Err(PhyReceiveError::NoDataAvailable)
        })
    });
    let device = device(read, Rc::new(RefCell::new(Vec::new())));
    assert!(device.receive().is_none());
}

#[test]
fn a_sent_packet_is_written_once_and_sent_on() {
    let sent = Rc::new(RefCell::new(Vec::new()));
    let read: Read = Box::new(|_buffer: &mut [u8]| Err(VirtualTunReadError::WouldBlock));
    let device = device(read, sent.clone());
    let tx = device.clone().transmit().unwrap();
    let answer = tx.consume(
        4,
        |buffer: &mut [u8]| {
            assert_eq!(buffer, &[0u8; 4]);
            buffer[0] = 9;
            "written"
        },
        |write: OnVirtualTunWrite<Write>, mut slot: TxSlot<_, _>, len: usize| {
            assert!(slot.is_open() && !slot.is_filled());
            let written = write(&mut |buffer: &mut [u8]| slot.fill(buffer), len);
            assert!(!slot.is_open() && slot.is_filled());
            (slot, written)
        },
    );
    assert_eq!(answer, "written");
    assert_eq!(*sent.borrow(), vec![vec![9, 0, 0, 0]]);
}

#[test]
fn a_function_is_called_once() {
    let mut f = Some(|b: &mut [u8]| {
        b[0] = 7;
        b.len()
    });
    let mut buffer = [0u8; 3];
    assert_eq!(call_once_safe(&mut f, &mut buffer), 3);
    assert_eq!(buffer, [7, 0, 0]);
    assert!(f.is_none());
}

#[test]
fn a_stored_packet_leaves_the_rest_of_the_buffer() {
    let mut buffer = [5u8; 4];
    assert_eq!(store_packet(&mut buffer, &[1, 2]), 2);
    assert_eq!(buffer, [1, 2, 5, 5]);
}
