//! What holds of stacks and sockets over several calls.
use crate::addr::{IpAddr, IpAddress, SocketAddr};
use crate::calls::{TcpCall, UdpCall};
use crate::smol_socket::{QueueState, SmolSocketParts, SocketQueue};
use crate::socket::{OnTcpSocketData, OnUdpSocketData, SocketConnectionError};
use crate::socket::{SocketReceiveError, SocketSendError};
use crate::socket::SocketType;
use crate::sockets::{SocketState, TcpSocketState, TcpState, UdpSocketState};
use crate::stack::{OnSocketData, SpinError, StackState};
use smoltcp::socket::SocketHandle;
use std::collections::VecDeque;
use std::sync::Arc;
use vstd::prelude::*;

verus! {

/// The interface of the stack exchanged packets: the sockets took and gave what they liked, but
/// each stayed under its handle as the kind of socket that it is. A ring of a UDP socket keeps
/// its number of places: without any, a receive ring takes nothing in, and a transmit ring
/// still has no room.
pub open spec fn exchanged<T, U, Q>(before: StackState<T, U, Q>, after: StackState<T, U, Q>) -> bool {
    &&& after == before.with_sockets(after.sockets)
    &&& after.sockets.dom() == before.sockets.dom()
    &&& forall|h: SocketHandle| #[trigger]
        before.sockets.contains_key(h) ==> match (before.sockets[h], after.sockets[h]) {
            (SocketState::Tcp(_), SocketState::Tcp(_)) => true,
            (SocketState::Udp(b), SocketState::Udp(a)) => {
                &&& a.rx_slots == b.rx_slots
                &&& b.rx_slots == 0 ==> a.rx == b.rx && a.rx_padding == b.rx_padding
                &&& a.tx_slots == b.tx_slots
                &&& b.tx_slots == 0 && b.tx_room is None ==> a.tx_room is None
            },
            (SocketState::Other, SocketState::Other) => true,
            _ => false,
        }
}

/// `after` is what some call of the library made of the stack `before`, a socket added, data
/// sent, a connection begun, or the sockets served, or else an exchange of packets on its
/// interface. A TCP socket is added with a callback that takes whatever comes.
pub open spec fn stack_call<T, U, Q>(before: StackState<T, U, Q>, after: StackState<T, U, Q>) -> bool where
    T: Fn(&[u8]) -> Result<usize, SocketReceiveError>,
    U: Fn(&[u8], IpAddr, u16) -> Result<usize, SocketReceiveError>,
 {
    ||| exists|on: OnTcpSocketData<T>, h: SocketHandle|
        crate::stack::takes_any_octets(*on) && #[trigger] crate::stack::tcp_socket_added(
            before,
            Some(on),
            h,
            after,
        )
    ||| exists|h: SocketHandle| #[trigger] crate::stack::udp_socket_added(before, h, after)
    ||| exists|h: SocketHandle, data: Seq<u8>, r: Result<usize, SocketSendError>|
        before.has_tcp(h) && #[trigger] crate::stack::tcp_sent(before, h, data, r, after)
    ||| exists|
        h: SocketHandle,
        data: Seq<u8>,
        addr: SocketAddr,
        r: Result<usize, SocketSendError>,
    |
        before.has_udp(h) && #[trigger] crate::stack::udp_sent(before, h, data, addr, r, after)
    ||| exists|h: SocketHandle, addr: SocketAddr, port: u16, r: Result<(), SocketConnectionError>|
        before.has_tcp(h) && #[trigger] crate::stack::tcp_connected(
            before,
            h,
            addr,
            port,
            r,
            after,
        )
    ||| exists|h: SocketHandle, on: T|
        {
            &&& before.has_tcp(h) && after.has_tcp(h)
            &&& after == before.with_socket(h, after.sockets[h]).with_tcp_calls(after.tcp_calls)
            &&& crate::stack::calls_added(
                before.tcp_calls,
                h,
                crate::stack::tcp_handed(on, before.tcp(h)),
                after.tcp_calls,
            )
            &&& #[trigger] crate::stack::tcp_spun(on, before.tcp(h), after.tcp(h))
        }
    ||| exists|h: SocketHandle, on: U, r: Result<(), SpinError>|
        {
            &&& before.has_udp(h) && after.has_udp(h)
            &&& after == before.with_socket(h, after.sockets[h]).with_udp_calls(after.udp_calls)
            &&& crate::stack::calls_added(
                before.udp_calls,
                h,
                crate::stack::udp_handed(on, before.udp(h)),
                after.udp_calls,
            )
            &&& #[trigger] crate::stack::udp_spun(on, before.udp(h), after.udp(h), r)
        }
    ||| crate::stack::can_spin(before) && crate::stack::spun(before, after)
    ||| exchanged(before, after)
}

/// Only TCP sockets are registered, each with a callback that takes whatever comes.
pub open spec fn serves_tcp<T, U, Q>(state: StackState<T, U, Q>) -> bool where
    T: Fn(&[u8]) -> Result<usize, SocketReceiveError>,
    U: Fn(&[u8], IpAddr, u16) -> Result<usize, SocketReceiveError>,
 {
    &&& state.grows
    &&& forall|h: SocketHandle| #[trigger]
        state.handlers.contains_key(h) ==> {
            &&& state.handlers[h].0 == SocketType::TCP
            &&& state.handlers[h].1.on_udp is None
            &&& state.has_tcp(h)
            &&& state.handlers[h].1.on_tcp is Some
            &&& crate::stack::takes_any_octets(*state.handlers[h].1.on_tcp->0)
        }
}

/// No call tells the thread that serves a stack to stop, or takes its queues of waiting tasks.
pub proof fn lemma_call_keeps_thread<T, U, Q>(
    before: StackState<T, U, Q>,
    after: StackState<T, U, Q>,
) where
    T: Fn(&[u8]) -> Result<usize, SocketReceiveError>,
    U: Fn(&[u8], IpAddr, u16) -> Result<usize, SocketReceiveError>,

    requires
        stack_call(before, after),
    ensures
        after.stop == before.stop,
        after.read_wake_deque == before.read_wake_deque,
        after.write_wake_deque == before.write_wake_deque,
        after.grows == before.grows,
{
}

/// A stack that was just made can be served, and whatever calls are made on it and packets
/// exchanged, it can still be: only TCP sockets are ever registered, and they stay in the
/// stack.
pub proof fn lemma_always_servable<T, U, Q>(states: Seq<StackState<T, U, Q>>) where
    T: Fn(&[u8]) -> Result<usize, SocketReceiveError>,
    U: Fn(&[u8], IpAddr, u16) -> Result<usize, SocketReceiveError>,

    requires
        states.len() > 0,
        states[0] == StackState::<T, U, Q>::fresh(
            states[0].read_wake_deque,
            states[0].write_wake_deque,
        ),
        forall|i: int|
            0 <= i < states.len() - 1 ==> stack_call(#[trigger] states[i], states[i + 1]),
    ensures
        serves_tcp(states.last()),
        crate::stack::can_spin(states.last()),
        !states.last().stop,
    decreases states.len(),
{
    if states.len() > 1 {
        let init = states.drop_last();
        assert forall|i: int| 0 <= i < init.len() - 1 implies stack_call(
            #[trigger] init[i],
            init[i + 1],
        ) by {
            assert(stack_call(states[i], states[i + 1]));
        }
        lemma_always_servable(init);
        assert(stack_call(states[states.len() - 2], states[states.len() - 2 + 1]));
        lemma_call_keeps_thread(init.last(), states.last());
        lemma_call_keeps_service(init.last(), states.last());
    }
}

/// What one call keeps of a stack that serves TCP sockets alone.
pub proof fn lemma_call_keeps_service<T, U, Q>(
    before: StackState<T, U, Q>,
    after: StackState<T, U, Q>,
) where
    T: Fn(&[u8]) -> Result<usize, SocketReceiveError>,
    U: Fn(&[u8], IpAddr, u16) -> Result<usize, SocketReceiveError>,

    requires
        serves_tcp(before),
        stack_call(before, after),
    ensures
        serves_tcp(after),
{
    assert forall|h: SocketHandle| #[trigger] after.handlers.contains_key(h) implies {
        &&& after.handlers[h].0 == SocketType::TCP
        &&& after.handlers[h].1.on_udp is None
        &&& after.has_tcp(h)
        &&& after.handlers[h].1.on_tcp is Some
        &&& crate::stack::takes_any_octets(*after.handlers[h].1.on_tcp->0)
    } by {
        if before.handlers.contains_key(h) {
            assert(before.sockets.contains_key(h));
        }
    }
}

/// Whatever calls are made on a stack and packets exchanged, it keeps the queues of waiting
/// tasks that it was made with: each time it is asked for the queue of those that wait to write
/// it gives the same one, or has none each time. Where the two queues were made by makers that
/// never make the same, they stay two.
pub proof fn lemma_wake_deques_stay<T, U, Q, W, MR, MW>(
    states: Seq<StackState<T, U, Q>>,
    make_read: MR,
    make_write: MW,
    i: int,
) where
    T: Fn(&[u8]) -> Result<usize, SocketReceiveError>,
    U: Fn(&[u8], IpAddr, u16) -> Result<usize, SocketReceiveError>,
    MR: FnOnce(VecDeque<W>) -> Q,
    MW: FnOnce(VecDeque<W>) -> Q,

    requires
        0 <= i < states.len(),
        forall|j: int|
            0 <= j < states.len() - 1 ==> stack_call(#[trigger] states[j], states[j + 1]),
    ensures
        states[i].read_wake_deque == states[0].read_wake_deque,
        states[i].write_wake_deque == states[0].write_wake_deque,
        ({
            &&& states[0].read_wake_deque is Some
            &&& states[0].write_wake_deque is Some
            &&& crate::with_device::made_empty(make_read, *states[0].read_wake_deque->0)
            &&& crate::with_device::made_empty(make_write, *states[0].write_wake_deque->0)
            &&& forall|a: Q, b: Q|
                #![trigger crate::with_device::made_empty(make_read, a), crate::with_device::made_empty(make_write, b)]
                crate::with_device::made_empty(make_read, a) && crate::with_device::made_empty(
                    make_write,
                    b,
                ) ==> a != b
        }) ==> states[i].write_wake_deque != states[i].read_wake_deque,
    decreases i,
{
    if i > 0 {
        lemma_wake_deques_stay(states, make_read, make_write, i - 1);
        assert(stack_call(states[i - 1], states[i - 1 + 1]));
        lemma_call_keeps_thread(states[i - 1], states[i]);
    }
}

/// The TCP socket with the handle `h` is in the stack, and is served through `on`.
pub open spec fn serves_through<T, U, Q>(
    state: StackState<T, U, Q>,
    h: SocketHandle,
    on: Option<OnTcpSocketData<T>>,
) -> bool {
    &&& state.has_tcp(h)
    &&& state.handlers.contains_key(h)
    &&& state.handlers[h] == (SocketType::TCP, OnSocketData::<T, U> { on_tcp: on, on_udp: None })
}

/// A TCP socket that was added stays in the stack under its handle and keeps its callback,
/// whatever calls are made and packets exchanged.
pub proof fn lemma_added_tcp_stays<T, U, Q>(
    before: StackState<T, U, Q>,
    on: Option<OnTcpSocketData<T>>,
    handle: SocketHandle,
    states: Seq<StackState<T, U, Q>>,
) where
    T: Fn(&[u8]) -> Result<usize, SocketReceiveError>,
    U: Fn(&[u8], IpAddr, u16) -> Result<usize, SocketReceiveError>,

    requires
        states.len() > 0,
        crate::stack::tcp_socket_added(before, on, handle, states[0]),
        forall|i: int|
            0 <= i < states.len() - 1 ==> stack_call(#[trigger] states[i], states[i + 1]),
    ensures
        serves_through(states.last(), handle, on),
{
    lemma_served_stays(states, handle, on);
}

proof fn lemma_served_stays<T, U, Q>(
    states: Seq<StackState<T, U, Q>>,
    handle: SocketHandle,
    on: Option<OnTcpSocketData<T>>,
) where
    T: Fn(&[u8]) -> Result<usize, SocketReceiveError>,
    U: Fn(&[u8], IpAddr, u16) -> Result<usize, SocketReceiveError>,

    requires
        states.len() > 0,
        serves_through(states[0], handle, on),
        forall|i: int|
            0 <= i < states.len() - 1 ==> stack_call(#[trigger] states[i], states[i + 1]),
    ensures
        serves_through(states.last(), handle, on),
    decreases states.len(),
{
    if states.len() > 1 {
        let init = states.drop_last();
        assert forall|i: int| 0 <= i < init.len() - 1 implies stack_call(
            #[trigger] init[i],
            init[i + 1],
        ) by {
            assert(stack_call(states[i], states[i + 1]));
        }
        lemma_served_stays(init, handle, on);
        assert(stack_call(states[states.len() - 2], states[states.len() - 2 + 1]));
        assert(init.last().sockets.contains_key(handle));
    }
}

/// Two TCP sockets that were added to a stack, with any calls and packets between and after,
/// have different handles, each keeps its own callback, and serving one leaves the other as it
/// is.
pub proof fn lemma_two_tcp_sockets<T, U, Q>(
    before: StackState<T, U, Q>,
    on_a: Option<OnTcpSocketData<T>>,
    a: SocketHandle,
    between: Seq<StackState<T, U, Q>>,
    on_b: Option<OnTcpSocketData<T>>,
    b: SocketHandle,
    after: Seq<StackState<T, U, Q>>,
) where
    T: Fn(&[u8]) -> Result<usize, SocketReceiveError>,
    U: Fn(&[u8], IpAddr, u16) -> Result<usize, SocketReceiveError>,

    requires
        between.len() > 0,
        after.len() > 0,
        crate::stack::tcp_socket_added(before, on_a, a, between[0]),
        forall|i: int|
            0 <= i < between.len() - 1 ==> stack_call(#[trigger] between[i], between[i + 1]),
        crate::stack::tcp_socket_added(between.last(), on_b, b, after[0]),
        forall|i: int|
            0 <= i < after.len() - 1 ==> stack_call(#[trigger] after[i], after[i + 1]),
    ensures
        a != b,
        serves_through(after.last(), a, on_a),
        serves_through(after.last(), b, on_b),
        forall|socket: SocketState|
            (#[trigger] after.last().with_socket(a, socket)).sockets[b] == after.last().sockets[b],
        forall|socket: SocketState|
            (#[trigger] after.last().with_socket(b, socket)).sockets[a] == after.last().sockets[a],
{
    lemma_added_tcp_stays(before, on_a, a, between);
    lemma_served_stays(after, a, on_a);
    lemma_added_tcp_stays(between.last(), on_b, b, after);
}

/// Two sockets for tasks that were made on a stack, with any calls and packets between and
/// after, have different handles, and what comes in on each goes to a callback that was made for
/// its own queue. Where the locks never make the same, the queues are two.
pub proof fn lemma_two_sockets<T, U, Q, S, L, W, KA, DA, KB, DB>(
    before: StackState<T, U, Q>,
    lock_a: KA,
    on_data_a: DA,
    a: SmolSocketParts<S, L>,
    between: Seq<StackState<T, U, Q>>,
    lock_b: KB,
    on_data_b: DB,
    b: SmolSocketParts<S, L>,
    after: Seq<StackState<T, U, Q>>,
) where
    T: Fn(&[u8]) -> Result<usize, SocketReceiveError>,
    U: Fn(&[u8], IpAddr, u16) -> Result<usize, SocketReceiveError>,
    KA: FnOnce(SocketQueue<W>) -> L,
    DA: FnOnce(Arc<L>) -> T,
    KB: FnOnce(SocketQueue<W>) -> L,
    DB: FnOnce(Arc<L>) -> T,

    requires
        between.len() > 0,
        after.len() > 0,
        crate::smol_socket::socket_made(before, lock_a, on_data_a, a, between[0]),
        forall|i: int|
            0 <= i < between.len() - 1 ==> stack_call(#[trigger] between[i], between[i + 1]),
        crate::smol_socket::socket_made(between.last(), lock_b, on_data_b, b, after[0]),
        forall|i: int|
            0 <= i < after.len() - 1 ==> stack_call(#[trigger] after[i], after[i + 1]),
    ensures
        a.socket_handle != b.socket_handle,
        exists|callback: OnTcpSocketData<T>| #[trigger]
            serves_through(after.last(), a.socket_handle, Some(callback)) && call_ensures(
                on_data_a,
                (a.queue,),
                *callback,
            ),
        exists|callback: OnTcpSocketData<T>| #[trigger]
            serves_through(after.last(), b.socket_handle, Some(callback)) && call_ensures(
                on_data_b,
                (b.queue,),
                *callback,
            ),
        (forall|x: L, y: L|
            #![trigger crate::smol_socket::locked_empty(lock_a, x), crate::smol_socket::locked_empty(lock_b, y)]
            crate::smol_socket::locked_empty(lock_a, x) && crate::smol_socket::locked_empty(
                lock_b,
                y,
            ) ==> x != y) ==> a.queue != b.queue,
{
    let on_a = choose|callback: Arc<T>|
        {
            &&& call_ensures(on_data_a, (a.queue,), *callback)
            &&& #[trigger] crate::stack::tcp_socket_added(
                before,
                Some(callback),
                a.socket_handle,
                between[0],
            )
        };
    let on_b = choose|callback: Arc<T>|
        {
            &&& call_ensures(on_data_b, (b.queue,), *callback)
            &&& #[trigger] crate::stack::tcp_socket_added(
                between.last(),
                Some(callback),
                b.socket_handle,
                after[0],
            )
        };
    lemma_two_tcp_sockets(
        before,
        Some(on_a),
        a.socket_handle,
        between,
        Some(on_b),
        b.socket_handle,
        after,
    );
    assert(serves_through(after.last(), a.socket_handle, Some(on_a)));
    assert(serves_through(after.last(), b.socket_handle, Some(on_b)));
}

/// The octets of `chunks`, one after the other.
pub open spec fn joined(chunks: Seq<Seq<u8>>) -> Seq<u8>
    decreases chunks.len(),
{
    if chunks.len() == 0 {
        Seq::empty()
    } else {
        joined(chunks.drop_last()) + chunks.last()
    }
}

/// What callbacks are handed of a TCP socket, as it is served time and again while nothing
/// more comes in, is what came in, in order, with nothing lost and nothing twice.
pub proof fn lemma_tcp_delivered_in_order(states: Seq<TcpSocketState>, chunks: Seq<Seq<u8>>)
    requires
        states.len() == chunks.len() + 1,
        forall|i: int|
            0 <= i < chunks.len() ==> crate::stack::tcp_delivered(
                states[i],
                #[trigger] chunks[i],
                states[i + 1],
            ),
    ensures
        joined(chunks) + states.last().rx == states[0].rx,
        states.last() == (TcpSocketState {
            rx: states.last().rx,
            rx_piece: states.last().rx_piece,
            ..states[0]
        }),
    decreases chunks.len(),
{
    if chunks.len() == 0 {
        assert(joined(chunks) + states.last().rx =~= states[0].rx);
    } else {
        let last = chunks.len() - 1;
        let init = states.drop_last();
        assert forall|i: int| 0 <= i < chunks.drop_last().len() implies crate::stack::tcp_delivered(
            init[i],
            #[trigger] chunks.drop_last()[i],
            init[i + 1],
        ) by {
            assert(crate::stack::tcp_delivered(states[i], chunks[i], states[i + 1]));
        }
        lemma_tcp_delivered_in_order(init, chunks.drop_last());
        assert(crate::stack::tcp_delivered(states[last], chunks[last], states[last + 1]));
        assert(states[last].rx =~= chunks[last] + states[last + 1].rx);
        assert(joined(chunks) + states.last().rx =~= joined(chunks.drop_last()) + (chunks.last()
            + states.last().rx));
    }
}

/// Serving a TCP socket twice hands over all that came in before: the first time the piece at
/// the front, the second time the rest, if there is one.
pub proof fn lemma_served_twice(
    before: TcpSocketState,
    first: Seq<u8>,
    between: TcpSocketState,
    second: Seq<u8>,
    after: TcpSocketState,
)
    requires
        crate::stack::tcp_delivered(before, first, between),
        between.can_recv() ==> crate::stack::tcp_delivered(between, second, after),
        !between.can_recv() ==> second == Seq::<u8>::empty() && after == between,
    ensures
        first + second == before.rx,
        !after.can_recv(),
{
    assert(first + second =~= before.rx);
}

/// The octets that callbacks were handed in `calls`, call by call.
pub open spec fn handed_octets<T>(calls: Seq<TcpCall<T>>) -> Seq<Seq<u8>> {
    Seq::new(calls.len(), |i: int| calls[i].octets)
}

/// Serving a TCP socket calls its callback exactly once where octets wait, and never where none
/// do: what the one call hands over is not empty, and together with what still waits it is what
/// waited before. No other socket's callback is called.
pub proof fn lemma_tcp_served_once<T, U, Q>(
    before: StackState<T, U, Q>,
    handle: SocketHandle,
    on: T,
    after: StackState<T, U, Q>,
) where T: Fn(&[u8]) -> Result<usize, SocketReceiveError>
    requires
        crate::stack::tcp_spun(on, before.tcp(handle), after.tcp(handle)),
        crate::stack::calls_added(
            before.tcp_calls,
            handle,
            crate::stack::tcp_handed(on, before.tcp(handle)),
            after.tcp_calls,
        ),
    ensures
        before.tcp(handle).rx.len() > 0 ==> {
            &&& after.tcp_calls_of(handle).len() == before.tcp_calls_of(handle).len() + 1
            &&& after.tcp_calls_of(handle).drop_last() == before.tcp_calls_of(handle)
            &&& after.tcp_calls_of(handle).last().on == on
            &&& after.tcp_calls_of(handle).last().octets.len() > 0
            &&& after.tcp_calls_of(handle).last().octets + after.tcp(handle).rx == before.tcp(
                handle,
            ).rx
        },
        before.tcp(handle).rx.len() == 0 ==> {
            &&& after.tcp_calls_of(handle) == before.tcp_calls_of(handle)
            &&& after.tcp(handle).rx == before.tcp(handle).rx
        },
        forall|h: SocketHandle|
            h != handle ==> #[trigger] after.tcp_calls_of(h) == before.tcp_calls_of(h),
{
    let calls = before.tcp_calls_of(handle);
    let more = crate::stack::tcp_handed(on, before.tcp(handle));
    assert(after.tcp_calls_of(handle) == calls + more);
    assert(calls + Seq::<TcpCall<T>>::empty() =~= calls);
    if before.tcp(handle).rx.len() > 0 {
        assert((calls + more).drop_last() =~= calls);
        assert(more[0].octets + after.tcp(handle).rx =~= before.tcp(handle).rx);
    }
}

/// Serving a UDP socket takes the datagram that waits first, if one waits, and calls the callback
/// exactly once with its payload and its sender, unless the sender has no address; otherwise it
/// calls nothing. No other socket's callback is called.
pub proof fn lemma_udp_served_once<T, U, Q>(
    before: StackState<T, U, Q>,
    handle: SocketHandle,
    on: U,
    after: StackState<T, U, Q>,
    r: Result<(), SpinError>,
) where U: Fn(&[u8], IpAddr, u16) -> Result<usize, SocketReceiveError>
    requires
        crate::stack::udp_servable(before.udp(handle)),
        crate::stack::udp_spun(on, before.udp(handle), after.udp(handle), r),
        crate::stack::calls_added(
            before.udp_calls,
            handle,
            crate::stack::udp_handed(on, before.udp(handle)),
            after.udp_calls,
        ),
    ensures
        before.udp(handle).rx.len() > 0 ==> {
            let first = before.udp(handle).rx[0];
            &&& seq![first] + after.udp(handle).rx == before.udp(handle).rx
            &&& first.endpoint.addr is Unspecified ==> after.udp_calls_of(handle)
                == before.udp_calls_of(handle) && r is Err
            &&& !(first.endpoint.addr is Unspecified) ==> {
                let call = after.udp_calls_of(handle).last();
                &&& after.udp_calls_of(handle).len() == before.udp_calls_of(handle).len() + 1
                &&& after.udp_calls_of(handle).drop_last() == before.udp_calls_of(handle)
                &&& call.on == on
                &&& call.payload == first.payload
                &&& call.port == first.endpoint.port
                &&& first.endpoint.addr matches IpAddress::Ipv4(p) ==> (call.addr matches IpAddr::V4(
                    o,
                ) && forall|i: int| 0 <= i < 4 ==> #[trigger] o@[i] == p.0@[i])
                &&& first.endpoint.addr matches IpAddress::Ipv6(p) ==> (call.addr matches IpAddr::V6(
                    o,
                ) && forall|i: int| 0 <= i < 16 ==> #[trigger] o@[i] == p.0@[i])
            }
        },
        before.udp(handle).rx.len() == 0 ==> {
            &&& after.udp_calls_of(handle) == before.udp_calls_of(handle)
            &&& after.udp(handle).rx == before.udp(handle).rx
            &&& r is Ok
        },
        forall|h: SocketHandle|
            h != handle ==> #[trigger] after.udp_calls_of(h) == before.udp_calls_of(h),
{
    let calls = before.udp_calls_of(handle);
    let more = crate::stack::udp_handed(on, before.udp(handle));
    assert(after.udp_calls_of(handle) == calls + more);
    assert(calls + Seq::<UdpCall<U>>::empty() =~= calls);
    if before.udp(handle).rx.len() > 0 {
        let first = before.udp(handle).rx[0];
        assert(seq![first] + after.udp(handle).rx =~= before.udp(handle).rx);
        if more.len() == 1 {
            assert((calls + more).drop_last() =~= calls);
        }
    }
}

/// What serving a UDP socket answers is the callback's doing: all is well exactly where the
/// callback said so, and it is reported where it did not. A sender without an address is
/// reported too.
pub proof fn lemma_udp_answer<U>(
    on: U,
    before: UdpSocketState,
    after: UdpSocketState,
    r: Result<(), SpinError>,
) where U: Fn(&[u8], IpAddr, u16) -> Result<usize, SocketReceiveError>
    requires
        before.rx.len() > 0,
        crate::stack::udp_spun(on, before, after, r),
    ensures
        before.rx[0].endpoint.addr is Unspecified ==> (r matches Err(SpinError::Unknown(text)) && text@
            == "spin address conversion error"@),
        !(before.rx[0].endpoint.addr is Unspecified) ==> exists|
            data: &[u8],
            addr: IpAddr,
            said: Result<usize, SocketReceiveError>,
        |
            {
                &&& data@ == before.rx[0].payload
                &&& #[trigger] call_ensures(on, (data, addr, before.rx[0].endpoint.port), said)
                &&& said is Ok ==> r is Ok
                &&& said is Err ==> (r matches Err(e) && e is NoCallback)
            },
{
}

/// Spinning a stack serves every TCP socket that is registered with a callback: where octets wait
/// on it, the callback is called exactly once, with some of them from the front, which then wait
/// no longer; where none wait, it is not called.
pub proof fn lemma_spin_serves_tcp<T, U, Q>(
    before: StackState<T, U, Q>,
    handle: SocketHandle,
    on: OnTcpSocketData<T>,
    after: StackState<T, U, Q>,
) where
    T: Fn(&[u8]) -> Result<usize, SocketReceiveError>,
    U: Fn(&[u8], IpAddr, u16) -> Result<usize, SocketReceiveError>,

    requires
        before.has_tcp(handle),
        before.handlers.contains_key(handle),
        before.handlers[handle].0 == SocketType::TCP,
        before.handlers[handle].1.on_tcp == Some(on),
        crate::stack::spun(before, after),
    ensures
        after.has_tcp(handle),
        before.tcp(handle).rx.len() > 0 ==> {
            &&& after.tcp_calls_of(handle).len() == before.tcp_calls_of(handle).len() + 1
            &&& after.tcp_calls_of(handle).drop_last() == before.tcp_calls_of(handle)
            &&& after.tcp_calls_of(handle).last().on == *on
            &&& after.tcp_calls_of(handle).last().octets.len() > 0
            &&& after.tcp_calls_of(handle).last().octets + after.tcp(handle).rx == before.tcp(
                handle,
            ).rx
        },
        before.tcp(handle).rx.len() == 0 ==> {
            &&& after.tcp_calls_of(handle) == before.tcp_calls_of(handle)
            &&& after.tcp(handle).rx == before.tcp(handle).rx
        },
        after.tcp(handle).tx == before.tcp(handle).tx,
        after.tcp(handle).state == before.tcp(handle).state,
{
    let calls = before.tcp_calls_of(handle);
    let more = crate::stack::registered_tcp_handed(before, handle);
    assert(before.sockets.contains_key(handle));
    assert(after.tcp_calls_of(handle) == calls + more);
    assert(calls + Seq::<TcpCall<T>>::empty() =~= calls);
    if before.tcp(handle).rx.len() > 0 {
        assert((calls + more).drop_last() =~= calls);
        assert(more[0].octets + after.tcp(handle).rx =~= before.tcp(handle).rx);
    }
}

/// Spinning a stack serves every UDP socket that is registered with a callback: where a datagram
/// waits on it, the first one leaves and its payload goes to the callback in exactly one call,
/// unless its sender has no address; where none waits, the callback is not called.
pub proof fn lemma_spin_serves_udp<T, U, Q>(
    before: StackState<T, U, Q>,
    handle: SocketHandle,
    on: OnUdpSocketData<U>,
    after: StackState<T, U, Q>,
) where
    T: Fn(&[u8]) -> Result<usize, SocketReceiveError>,
    U: Fn(&[u8], IpAddr, u16) -> Result<usize, SocketReceiveError>,

    requires
        before.has_udp(handle),
        crate::stack::udp_servable(before.udp(handle)),
        before.handlers.contains_key(handle),
        before.handlers[handle].0 == SocketType::UDP,
        before.handlers[handle].1.on_udp == Some(on),
        crate::stack::spun(before, after),
    ensures
        after.has_udp(handle),
        before.udp(handle).rx.len() > 0 ==> {
            let first = before.udp(handle).rx[0];
            &&& seq![first] + after.udp(handle).rx == before.udp(handle).rx
            &&& !(first.endpoint.addr is Unspecified) ==> {
                let call = after.udp_calls_of(handle).last();
                &&& after.udp_calls_of(handle).len() == before.udp_calls_of(handle).len() + 1
                &&& after.udp_calls_of(handle).drop_last() == before.udp_calls_of(handle)
                &&& call.on == *on
                &&& call.payload == first.payload
                &&& call.port == first.endpoint.port
            }
            &&& first.endpoint.addr is Unspecified ==> after.udp_calls_of(handle)
                == before.udp_calls_of(handle)
        },
        before.udp(handle).rx.len() == 0 ==> {
            &&& after.udp_calls_of(handle) == before.udp_calls_of(handle)
            &&& after.udp(handle) == before.udp(handle)
        },
{
    let calls = before.udp_calls_of(handle);
    let more = crate::stack::registered_udp_handed(before, handle);
    assert(before.sockets.contains_key(handle));
    assert(after.udp_calls_of(handle) == calls + more);
    assert(calls + Seq::<UdpCall<U>>::empty() =~= calls);
    if before.udp(handle).rx.len() > 0 {
        let first = before.udp(handle).rx[0];
        assert(seq![first] + after.udp(handle).rx =~= before.udp(handle).rx);
        if more.len() == 1 {
            assert((calls + more).drop_last() =~= calls);
        }
    }
}

/// Spinning a stack leaves a socket that is not registered as it is, and calls nothing for it.
pub proof fn lemma_spin_leaves_unregistered<T, U, Q>(
    before: StackState<T, U, Q>,
    handle: SocketHandle,
    after: StackState<T, U, Q>,
) where
    T: Fn(&[u8]) -> Result<usize, SocketReceiveError>,
    U: Fn(&[u8], IpAddr, u16) -> Result<usize, SocketReceiveError>,

    requires
        before.sockets.contains_key(handle),
        !before.handlers.contains_key(handle),
        crate::stack::spun(before, after),
    ensures
        after.sockets.contains_key(handle) && after.sockets[handle] == before.sockets[handle],
        after.tcp_calls_of(handle) == before.tcp_calls_of(handle),
        after.udp_calls_of(handle) == before.udp_calls_of(handle),
{
    assert(before.tcp_calls_of(handle) + Seq::<TcpCall<T>>::empty() =~= before.tcp_calls_of(
        handle,
    ));
    assert(before.udp_calls_of(handle) + Seq::<UdpCall<U>>::empty() =~= before.udp_calls_of(
        handle,
    ));
    assert(after.tcp_calls_of(handle) == before.tcp_calls_of(handle));
    assert(after.udp_calls_of(handle) == before.udp_calls_of(handle));
}

/// A send on a TCP socket succeeds exactly where the connection is open for sending.
pub proof fn lemma_send_succeeds<T, U, Q>(
    before: StackState<T, U, Q>,
    handle: SocketHandle,
    data: Seq<u8>,
    r: Result<usize, SocketSendError>,
    after: StackState<T, U, Q>,
)
    requires
        crate::stack::tcp_sent(before, handle, data, r, after),
    ensures
        r is Ok <==> before.tcp(handle).state is Established || before.tcp(handle).state is CloseWait,
        r is Err ==> after == before,
{
}

proof fn lemma_addressed(addr: SocketAddr)
    ensures
        addr.ip matches IpAddr::V4(o) ==> (addr.endpoint().is_specified() <==> o@[0] != 0
            && addr.port != 0),
        addr.ip matches IpAddr::V6(o) ==> (addr.endpoint().is_specified() <==> (exists|i: int|
            0 <= i < 16 && #[trigger] o@[i] != 0) && addr.port != 0),
{
    crate::addr::lemma_specified(addr.endpoint());
    match addr.ip {
        IpAddr::V6(o) => {
            match addr.endpoint().addr {
                IpAddress::Ipv6(p) => {
                    assert(p.0@ == o@);
                    assert((exists|i: int| 0 <= i < 16 && #[trigger] p.0@[i] != 0) <==> (exists|
                        i: int,
                    | 0 <= i < 16 && #[trigger] o@[i] != 0));
                },
                _ => {},
            }
        },
        _ => {},
    }
}

/// A connection begins exactly where the socket is closed, the address names a host and neither
/// port is zero. Otherwise nothing changes, and the answer is that the operation is illegal where
/// the socket is in use, or else that the destination cannot be addressed.
pub proof fn lemma_connect_succeeds<T, U, Q>(
    before: StackState<T, U, Q>,
    handle: SocketHandle,
    addr: SocketAddr,
    src_port: u16,
    r: Result<(), SocketConnectionError>,
    after: StackState<T, U, Q>,
)
    requires
        crate::stack::tcp_connected(before, handle, addr, src_port, r, after),
    ensures
        r is Ok <==> {
            &&& before.tcp(handle).state is Closed || before.tcp(handle).state is TimeWait
            &&& addr.port != 0 && src_port != 0
            &&& match addr.ip {
                IpAddr::V4(o) => o@[0] != 0,
                IpAddr::V6(o) => exists|i: int| 0 <= i < 16 && #[trigger] o@[i] != 0,
            }
        },
        r is Err ==> after == before,
        r is Err && (before.tcp(handle).state is Closed || before.tcp(handle).state is TimeWait)
            ==> (r matches Err(SocketConnectionError::Unknown(text)) && text@
            == "unaddressable destination"@),
        !(before.tcp(handle).state is Closed || before.tcp(handle).state is TimeWait) ==> (
        r matches Err(SocketConnectionError::Unknown(text)) && text@ == "illegal operation"@),
{
    lemma_addressed(addr);
}

/// A datagram is queued exactly where the socket is bound, the address names a host, its port is
/// not zero, and the ring has room for it. The answer otherwise is that the destination cannot
/// be addressed, or else that the datagram exceeds the ring, or else that the ring is exhausted.
pub proof fn lemma_udp_send_succeeds<T, U, Q>(
    before: StackState<T, U, Q>,
    handle: SocketHandle,
    data: Seq<u8>,
    addr: SocketAddr,
    r: Result<usize, SocketSendError>,
    after: StackState<T, U, Q>,
)
    requires
        crate::stack::udp_sent(before, handle, data, addr, r, after),
    ensures
        ({
            let socket = before.udp(handle);
            let addressed = {
                &&& socket.endpoint.port != 0
                &&& addr.port != 0
                &&& match addr.ip {
                    IpAddr::V4(o) => o@[0] != 0,
                    IpAddr::V6(o) => exists|i: int| 0 <= i < 16 && #[trigger] o@[i] != 0,
                }
            };
            let fits = data.len() <= socket.tx_capacity;
            let room = socket.tx_room matches Some(n) && data.len() <= n;
            &&& r is Ok <==> addressed && fits && room
            &&& !addressed ==> (r matches Err(SocketSendError::Unknown(text)) && text@
                == "unaddressable destination"@)
            &&& addressed && !fits ==> (r matches Err(SocketSendError::Unknown(text)) && text@
                == "truncated packet"@)
            &&& addressed && fits && !room ==> (r matches Err(SocketSendError::Exhausted))
            &&& r is Err ==> after.udp(handle).tx == socket.tx && after.udp(handle).rx == socket.rx
        }),
        forall|h: SocketHandle|
            h != handle && before.sockets.contains_key(h) ==> #[trigger] after.sockets[h]
                == before.sockets[h],
{
    lemma_addressed(addr);
}

/// What happened to the TCP socket with the handle `handle` in one step of a run: the stack was
/// spun, or else `arrived` came in on the socket and nothing was handed over.
pub open spec fn run_step<T, U, Q>(
    before: StackState<T, U, Q>,
    handle: SocketHandle,
    arrived: Seq<u8>,
    after: StackState<T, U, Q>,
) -> bool where
    T: Fn(&[u8]) -> Result<usize, SocketReceiveError>,
    U: Fn(&[u8], IpAddr, u16) -> Result<usize, SocketReceiveError>,
 {
    &&& before.has_tcp(handle)
    &&& after.has_tcp(handle)
    &&& {
        ||| arrived.len() == 0 && crate::stack::can_spin(before) && crate::stack::spun(before, after)
        ||| {
            &&& after.tcp_calls_of(handle) == before.tcp_calls_of(handle)
            &&& after.tcp(handle).rx == before.tcp(handle).rx + arrived
        }
    }
}

/// Over a run, in which a stack is spun time and again while octets come in on a TCP socket, the
/// callback is handed what came in, in order, each octet once: all that was handed over, one call
/// after the other, followed by what still waits, is what was there at first followed by what
/// came in.
pub proof fn lemma_run_hands_over_once<T, U, Q>(
    states: Seq<StackState<T, U, Q>>,
    handle: SocketHandle,
    arrived: Seq<Seq<u8>>,
) where
    T: Fn(&[u8]) -> Result<usize, SocketReceiveError>,
    U: Fn(&[u8], IpAddr, u16) -> Result<usize, SocketReceiveError>,

    requires
        states.len() == arrived.len() + 1,
        forall|i: int|
            0 <= i < arrived.len() ==> run_step(
                states[i],
                handle,
                #[trigger] arrived[i],
                states[i + 1],
            ),
    ensures
        joined(handed_octets(states.last().tcp_calls_of(handle))) + states.last().tcp(handle).rx
            == joined(handed_octets(states[0].tcp_calls_of(handle))) + states[0].tcp(handle).rx
            + joined(arrived),
        states.last().tcp_calls_of(handle).len() <= states[0].tcp_calls_of(handle).len()
            + arrived.len(),
    decreases arrived.len(),
{
    if arrived.len() == 0 {
        assert(joined(handed_octets(states[0].tcp_calls_of(handle))) + states[0].tcp(handle).rx
            + joined(arrived) =~= joined(handed_octets(states[0].tcp_calls_of(handle)))
            + states[0].tcp(handle).rx);
    } else {
        let n = arrived.len() - 1;
        let init = arrived.drop_last();
        assert forall|i: int| 0 <= i < init.len() implies run_step(
            states.drop_last()[i],
            handle,
            #[trigger] init[i],
            states.drop_last()[i + 1],
        ) by {
            assert(run_step(states[i], handle, arrived[i], states[i + 1]));
        }
        lemma_run_hands_over_once(states.drop_last(), handle, init);
        assert(run_step(states[n], handle, arrived[n], states[n + 1]));
        lemma_run_step(states[n], handle, arrived[n], states[n + 1]);
        let start = joined(handed_octets(states[0].tcp_calls_of(handle))) + states[0].tcp(handle).rx;
        assert(start + joined(arrived) =~= start + joined(init) + arrived.last());
    }
}

proof fn lemma_run_step<T, U, Q>(
    before: StackState<T, U, Q>,
    handle: SocketHandle,
    arrived: Seq<u8>,
    after: StackState<T, U, Q>,
) where
    T: Fn(&[u8]) -> Result<usize, SocketReceiveError>,
    U: Fn(&[u8], IpAddr, u16) -> Result<usize, SocketReceiveError>,

    requires
        run_step(before, handle, arrived, after),
    ensures
        joined(handed_octets(after.tcp_calls_of(handle))) + after.tcp(handle).rx == joined(
            handed_octets(before.tcp_calls_of(handle)),
        ) + before.tcp(handle).rx + arrived,
        after.tcp_calls_of(handle).len() <= before.tcp_calls_of(handle).len() + 1,
{
    let b = before.tcp_calls_of(handle);
    let a = after.tcp_calls_of(handle);
    let octets = joined(handed_octets(b));
    if crate::stack::can_spin(before) && crate::stack::spun(before, after) && arrived.len() == 0 {
        let more = crate::stack::registered_tcp_handed(before, handle);
        assert(a == b + more);
        assert(before.sockets.contains_key(handle));
        assert(octets + before.tcp(handle).rx + arrived =~= octets + before.tcp(handle).rx);
        if before.handlers.contains_key(handle) {
            assert(crate::stack::can_serve(before, handle));
        }
        if more.len() == 0 {
            assert(b + more =~= b);
        } else {
            assert(handed_octets(a).drop_last() =~= handed_octets(b));
            assert(handed_octets(a).last() == more[0].octets);
            assert(more[0].octets + after.tcp(handle).rx =~= before.tcp(handle).rx);
            assert(joined(handed_octets(a)) == octets + more[0].octets);
            assert(octets + more[0].octets + after.tcp(handle).rx =~= octets + (more[0].octets
                + after.tcp(handle).rx));
        }
    } else {
        assert(octets + (before.tcp(handle).rx + arrived) =~= octets + before.tcp(handle).rx
            + arrived);
    }
}

/// A connection that begins goes to the address that was given, octet by octet, and its port,
/// from the port that was given, and starts with empty buffers.
pub proof fn lemma_connects_to_address<T, U, Q>(
    before: StackState<T, U, Q>,
    handle: SocketHandle,
    addr: SocketAddr,
    src_port: u16,
    after: StackState<T, U, Q>,
)
    requires
        crate::stack::tcp_connected(before, handle, addr, src_port, Ok(()), after),
    ensures
        after.tcp(handle).state == TcpState::SynSent,
        after.tcp(handle).rx.len() == 0 && after.tcp(handle).tx.len() == 0,
        after.tcp(handle).remote_endpoint.port == addr.port,
        after.tcp(handle).local_endpoint.port == src_port,
        addr.port != 0 && src_port != 0,
        addr.ip matches IpAddr::V4(o) ==> {
            &&& after.tcp(handle).remote_endpoint.addr matches IpAddress::Ipv4(p)
            &&& forall|i: int| 0 <= i < 4 ==> #[trigger] p.0@[i] == o@[i]
        },
        addr.ip matches IpAddr::V6(o) ==> {
            &&& after.tcp(handle).remote_endpoint.addr matches IpAddress::Ipv6(p)
            &&& forall|i: int| 0 <= i < 16 ==> #[trigger] p.0@[i] == o@[i]
        },
        forall|h: SocketHandle|
            h != handle && before.sockets.contains_key(h) ==> #[trigger] after.sockets[h]
                == before.sockets[h],
{
}

/// A datagram that is queued goes to the address that was given, octet by octet, and its port.
pub proof fn lemma_datagram_goes_to_address<T, U, Q>(
    before: StackState<T, U, Q>,
    handle: SocketHandle,
    data: Seq<u8>,
    addr: SocketAddr,
    n: usize,
    after: StackState<T, U, Q>,
)
    requires
        before.has_udp(handle),
        data.len() <= usize::MAX,
        crate::stack::udp_sent(before, handle, data, addr, Ok(n), after),
    ensures
        after.udp(handle).tx.len() == before.udp(handle).tx.len() + 1,
        after.udp(handle).tx.last().endpoint.port == addr.port,
        addr.ip matches IpAddr::V4(o) ==> {
            &&& after.udp(handle).tx.last().endpoint.addr matches IpAddress::Ipv4(p)
            &&& forall|i: int| 0 <= i < 4 ==> #[trigger] p.0@[i] == o@[i]
        },
        addr.ip matches IpAddr::V6(o) ==> {
            &&& after.udp(handle).tx.last().endpoint.addr matches IpAddress::Ipv6(p)
            &&& forall|i: int| 0 <= i < 16 ==> #[trigger] p.0@[i] == o@[i]
        },
{
}

/// A TCP socket that was just added is closed and bound to nothing; its buffers are empty, and
/// each holds 65000 octets.
pub proof fn lemma_added_tcp_is_fresh<T, U, Q>(
    before: StackState<T, U, Q>,
    on: Option<OnTcpSocketData<T>>,
    handle: SocketHandle,
    after: StackState<T, U, Q>,
)
    requires
        crate::stack::tcp_socket_added(before, on, handle, after),
    ensures
        !before.sockets.contains_key(handle),
        after.sockets.dom() == before.sockets.dom().insert(handle),
        after.has_tcp(handle),
        after.tcp(handle).state == TcpState::Closed,
        after.tcp(handle).rx.len() == 0 && after.tcp(handle).tx.len() == 0,
        after.tcp(handle).rx_capacity == 65000 && after.tcp(handle).tx_capacity == 65000,
        after.tcp(handle).local_endpoint.port == 0 && after.tcp(handle).remote_endpoint.port == 0,
        after.tcp(handle).local_endpoint.addr is Unspecified,
        after.tcp(handle).remote_endpoint.addr is Unspecified,
        after.handlers[handle].0 == SocketType::TCP,
        after.handlers[handle].1.on_tcp == on,
        forall|h: SocketHandle|
            h != handle && before.sockets.contains_key(h) ==> #[trigger] after.sockets[h]
                == before.sockets[h],
{
}

/// A UDP socket that was just added is bound to nothing; its rings are empty, each of 1024
/// octets and without a place for a datagram. No callback is registered for it.
pub proof fn lemma_added_udp_is_fresh<T, U, Q>(
    before: StackState<T, U, Q>,
    handle: SocketHandle,
    after: StackState<T, U, Q>,
)
    requires
        crate::stack::udp_socket_added(before, handle, after),
    ensures
        !before.sockets.contains_key(handle),
        after.sockets.dom() == before.sockets.dom().insert(handle),
        after.has_udp(handle),
        after.udp(handle).endpoint.port == 0,
        after.udp(handle).endpoint.addr is Unspecified,
        after.udp(handle).rx.len() == 0 && after.udp(handle).tx.len() == 0,
        after.udp(handle).rx_slots == 0 && after.udp(handle).tx_slots == 0,
        after.udp(handle).rx_capacity == 1024 && after.udp(handle).tx_capacity == 1024,
        after.handlers == before.handlers,
        forall|h: SocketHandle|
            h != handle && before.sockets.contains_key(h) ==> #[trigger] after.sockets[h]
                == before.sockets[h],
{
}

/// `accepted` is what a TCP socket took of some data that was sent on it.
pub open spec fn tcp_took(before: TcpSocketState, data: Seq<u8>, accepted: Seq<u8>, after: TcpSocketState) -> bool {
    &&& before.may_send()
    &&& accepted == data.take(before.accepted(data.len()))
    &&& after == before.queued(accepted)
}

/// What is queued on a TCP socket after several sends is what they said that they took, in
/// order, behind what was queued before; and it never exceeds the buffer.
pub proof fn lemma_tcp_queued_in_order(
    states: Seq<TcpSocketState>,
    data: Seq<Seq<u8>>,
    accepted: Seq<Seq<u8>>,
)
    requires
        states.len() == data.len() + 1,
        accepted.len() == data.len(),
        states[0].tx.len() <= states[0].tx_capacity,
        forall|i: int|
            0 <= i < data.len() ==> tcp_took(
                states[i],
                #[trigger] data[i],
                accepted[i],
                states[i + 1],
            ),
    ensures
        states.last().tx == states[0].tx + joined(accepted),
        states.last().tx.len() <= states.last().tx_capacity,
        states.last() == (TcpSocketState { tx: states.last().tx, ..states[0] }),
    decreases data.len(),
{
    if data.len() == 0 {
        assert(states[0].tx + joined(accepted) =~= states[0].tx);
    } else {
        let last = data.len() - 1;
        let init = states.drop_last();
        assert forall|i: int| 0 <= i < data.drop_last().len() implies tcp_took(
            init[i],
            #[trigger] data.drop_last()[i],
            accepted.drop_last()[i],
            init[i + 1],
        ) by {
            assert(tcp_took(states[i], data[i], accepted[i], states[i + 1]));
        }
        lemma_tcp_queued_in_order(init, data.drop_last(), accepted.drop_last());
        assert(tcp_took(states[last], data[last], accepted[last], states[last + 1]));
        assert(states.last().tx =~= states[0].tx + joined(accepted));
    }
}

/// A send that succeeds took what it says of the data, from the front, and all of it where
/// there was room.
pub proof fn lemma_tcp_send_takes<T, U, Q>(
    before: StackState<T, U, Q>,
    handle: SocketHandle,
    data: Seq<u8>,
    n: usize,
    after: StackState<T, U, Q>,
)
    requires
        before.has_tcp(handle),
        before.tcp(handle).tx.len() <= before.tcp(handle).tx_capacity,
        crate::stack::tcp_sent(before, handle, data, Ok(n), after),
    ensures
        n <= data.len(),
        tcp_took(before.tcp(handle), data, data.take(n as int), after.tcp(handle)),
        data.len() <= before.tcp(handle).tx_capacity - before.tcp(handle).tx.len() ==> n
            == data.len() && after.tcp(handle).tx == before.tcp(handle).tx + data,
        data.len() > before.tcp(handle).tx_capacity - before.tcp(handle).tx.len() ==> n
            == before.tcp(handle).tx_capacity - before.tcp(handle).tx.len(),
        after.tcp(handle).tx.len() == before.tcp(handle).tx.len() + n,
        forall|i: int|
            0 <= i < n ==> #[trigger] after.tcp(handle).tx[before.tcp(handle).tx.len() + i]
                == data[i],
        after.tcp(handle).rx == before.tcp(handle).rx,
        forall|h: SocketHandle|
            h != handle && before.sockets.contains_key(h) ==> #[trigger] after.sockets[h]
                == before.sockets[h],
{
    assert(data.take(data.len() as int) =~= data);
}

/// On a TCP socket whose connection is not open for sending nothing can be sent: the answer is
/// that the operation is illegal, and nothing changes.
pub proof fn lemma_send_needs_connection<T, U, Q>(
    before: StackState<T, U, Q>,
    handle: SocketHandle,
    data: Seq<u8>,
    r: Result<usize, SocketSendError>,
    after: StackState<T, U, Q>,
)
    requires
        !before.tcp(handle).may_send(),
        crate::stack::tcp_sent(before, handle, data, r, after),
    ensures
        r matches Err(SocketSendError::Unknown(text)) && text@ == "illegal operation"@,
        after == before,
{
}

/// A TCP socket that was just added can begin a connection to any specified address from any
/// port; it then refuses another one, which changes nothing.
pub proof fn lemma_connect_once<T, U, Q>(
    before: StackState<T, U, Q>,
    on: Option<OnTcpSocketData<T>>,
    handle: SocketHandle,
    added: StackState<T, U, Q>,
    addr: SocketAddr,
    port: u16,
    first: Result<(), SocketConnectionError>,
    connecting: StackState<T, U, Q>,
    other: SocketAddr,
    other_port: u16,
    second: Result<(), SocketConnectionError>,
    after: StackState<T, U, Q>,
)
    requires
        crate::stack::tcp_socket_added(before, on, handle, added),
        addr.endpoint().is_specified(),
        port != 0,
        crate::stack::tcp_connected(added, handle, addr, port, first, connecting),
        crate::stack::tcp_connected(connecting, handle, other, other_port, second, after),
    ensures
        first is Ok,
        connecting.tcp(handle).state == TcpState::SynSent,
        connecting.tcp(handle).remote_endpoint == addr.endpoint(),
        connecting.tcp(handle).local_endpoint.port == port,
        second matches Err(SocketConnectionError::Unknown(text)) && text@ == "illegal operation"@,
        after == connecting,
{
}

/// A UDP socket that was added has rings without a place for datagrams, so nothing can ever be
/// sent on it: whatever calls and packets come between, every send is refused, and leaves everything as it
/// is.
pub proof fn lemma_added_udp_never_sends<T, U, Q>(
    before: StackState<T, U, Q>,
    handle: SocketHandle,
    states: Seq<StackState<T, U, Q>>,
    data: Seq<u8>,
    addr: SocketAddr,
    r: Result<usize, SocketSendError>,
    after: StackState<T, U, Q>,
) where
    T: Fn(&[u8]) -> Result<usize, SocketReceiveError>,
    U: Fn(&[u8], IpAddr, u16) -> Result<usize, SocketReceiveError>,

    requires
        states.len() > 0,
        crate::stack::udp_socket_added(before, handle, states[0]),
        forall|i: int|
            0 <= i < states.len() - 1 ==> stack_call(#[trigger] states[i], states[i + 1]),
        crate::stack::udp_sent(states.last(), handle, data, addr, r, after),
    ensures
        r is Err,
        after == states.last(),
{
    lemma_added_udp_stays_shut(before, handle, states);
}

/// Nor can anything ever be received on it: whatever calls and packets come between, nothing
/// waits on it, and serving it does nothing, whatever the callback.
pub proof fn lemma_added_udp_never_receives<T, U, Q>(
    before: StackState<T, U, Q>,
    handle: SocketHandle,
    states: Seq<StackState<T, U, Q>>,
    on: U,
    spun: UdpSocketState,
    r: Result<(), SpinError>,
) where
    T: Fn(&[u8]) -> Result<usize, SocketReceiveError>,
    U: Fn(&[u8], IpAddr, u16) -> Result<usize, SocketReceiveError>,

    requires
        states.len() > 0,
        crate::stack::udp_socket_added(before, handle, states[0]),
        forall|i: int|
            0 <= i < states.len() - 1 ==> stack_call(#[trigger] states[i], states[i + 1]),
        crate::stack::udp_spun(on, states.last().udp(handle), spun, r),
    ensures
        states.last().udp(handle).rx.len() == 0,
        !states.last().udp(handle).can_recv(),
        spun == states.last().udp(handle),
        r is Ok,
{
    lemma_added_udp_stays_shut(before, handle, states);
}

/// A UDP socket whose rings have no places: nothing waits on it, and it has no room.
spec fn shut(socket: UdpSocketState) -> bool {
    &&& socket.rx_slots == 0
    &&& !socket.can_recv()
    &&& socket.tx_slots == 0
    &&& socket.tx_room is None
}

proof fn lemma_added_udp_stays_shut<T, U, Q>(
    before: StackState<T, U, Q>,
    handle: SocketHandle,
    states: Seq<StackState<T, U, Q>>,
) where
    T: Fn(&[u8]) -> Result<usize, SocketReceiveError>,
    U: Fn(&[u8], IpAddr, u16) -> Result<usize, SocketReceiveError>,

    requires
        states.len() > 0,
        crate::stack::udp_socket_added(before, handle, states[0]),
        forall|i: int|
            0 <= i < states.len() - 1 ==> stack_call(#[trigger] states[i], states[i + 1]),
    ensures
        states.last().has_udp(handle),
        shut(states.last().udp(handle)),
    decreases states.len(),
{
    if states.len() > 1 {
        let init = states.drop_last();
        assert forall|i: int| 0 <= i < init.len() - 1 implies stack_call(
            #[trigger] init[i],
            init[i + 1],
        ) by {
            assert(stack_call(states[i], states[i + 1]));
        }
        lemma_added_udp_stays_shut(before, handle, init);
        assert(stack_call(states[states.len() - 2], states[states.len() - 2 + 1]));
        lemma_shut_udp_stays_shut(init.last(), handle, states.last());
    }
}

proof fn lemma_shut_udp_stays_shut<T, U, Q>(
    before: StackState<T, U, Q>,
    handle: SocketHandle,
    after: StackState<T, U, Q>,
) where
    T: Fn(&[u8]) -> Result<usize, SocketReceiveError>,
    U: Fn(&[u8], IpAddr, u16) -> Result<usize, SocketReceiveError>,

    requires
        before.has_udp(handle),
        shut(before.udp(handle)),
        stack_call(before, after),
    ensures
        after.has_udp(handle),
        shut(after.udp(handle)),
{
    assert(before.sockets.contains_key(handle));
    if crate::stack::can_spin(before) && crate::stack::spun(before, after) {
        if before.handlers.contains_key(handle) {
            assert(crate::stack::can_serve(before, handle));
        }
    }
}

/// A socket that was added as a UDP socket is left alone when the stack is spun.
pub proof fn lemma_added_udp_not_served<T, U, Q>(
    before: StackState<T, U, Q>,
    handle: SocketHandle,
    added: StackState<T, U, Q>,
    after: StackState<T, U, Q>,
) where
    T: Fn(&[u8]) -> Result<usize, SocketReceiveError>,
    U: Fn(&[u8], IpAddr, u16) -> Result<usize, SocketReceiveError>,

    requires
        serves_tcp(before),
        crate::stack::udp_socket_added(before, handle, added),
        crate::stack::spun(added, after),
    ensures
        after.sockets[handle] == added.sockets[handle],
{
    assert(added.sockets.contains_key(handle));
}

/// A datagram that is queued is queued whole, with where it goes, behind those before it.
pub proof fn lemma_udp_queued_whole<T, U, Q>(
    before: StackState<T, U, Q>,
    handle: SocketHandle,
    data: Seq<u8>,
    addr: SocketAddr,
    n: usize,
    after: StackState<T, U, Q>,
)
    requires
        before.has_udp(handle),
        data.len() <= usize::MAX,
        crate::stack::udp_sent(before, handle, data, addr, Ok(n), after),
    ensures
        n == data.len(),
        after.udp(handle).tx.drop_last() == before.udp(handle).tx,
        after.udp(handle).tx.last().payload == data,
        after.udp(handle).tx.last().endpoint == addr.endpoint(),
{
    assert(after.udp(handle).tx.drop_last() =~= before.udp(handle).tx);
}

/// The queue `q` after the packets of `data` came in, one after the other.
pub open spec fn fed<W>(q: QueueState<W>, data: Seq<Seq<u8>>) -> QueueState<W>
    decreases data.len(),
{
    if data.len() == 0 {
        q
    } else {
        fed(q, data.drop_last()).after_data(data.last())
    }
}

/// The queue `q` after `n` packets were read.
pub open spec fn read_times<W>(q: QueueState<W>, n: nat) -> QueueState<W>
    decreases n,
{
    if n == 0 {
        q
    } else {
        read_times(q, (n - 1) as nat).after_read()
    }
}

/// Packets are read in the order in which they came in, and none is lost.
pub proof fn lemma_queue_in_order<W>(q: QueueState<W>, data: Seq<Seq<u8>>, n: nat)
    requires
        n < q.packets.len() + data.len(),
    ensures
        fed(q, data).packets == q.packets + data,
        read_times(fed(q, data), n).packets == (q.packets + data).skip(n as int),
        read_times(fed(q, data), n).packets[0] == (q.packets + data)[n as int],
{
    lemma_fed(q, data);
    lemma_read_times(fed(q, data), n);
}

proof fn lemma_fed<W>(q: QueueState<W>, data: Seq<Seq<u8>>)
    ensures
        fed(q, data).packets == q.packets + data,
    decreases data.len(),
{
    if data.len() == 0 {
        assert(q.packets + data =~= q.packets);
    } else {
        lemma_fed(q, data.drop_last());
        assert(fed(q, data).packets =~= q.packets + data);
    }
}

proof fn lemma_read_times<W>(q: QueueState<W>, n: nat)
    requires
        n <= q.packets.len(),
    ensures
        read_times(q, n).packets == q.packets.skip(n as int),
    decreases n,
{
    if n == 0 {
        assert(q.packets.skip(0) =~= q.packets);
    } else {
        lemma_read_times(q, (n - 1) as nat);
        assert(read_times(q, n).packets =~= q.packets.skip(n as int));
    }
}

/// A task that waits behind others is woken by the packet whose number is its place in line,
/// and then there is a packet to read.
pub proof fn lemma_waiting_task_is_woken<W>(q: QueueState<W>, waker: W, data: Seq<Seq<u8>>, last: Seq<u8>)
    requires
        data.len() == q.wakers.len(),
    ensures
        fed(q.after_wait(waker), data).first_waker() == Some(waker),
        fed(q.after_wait(waker), data.push(last)).packets.len() > 0,
        fed(q.after_wait(waker), data.push(last)).wakers == Seq::<W>::empty(),
{
    let w = q.after_wait(waker);
    lemma_fed_wakers(w, data);
    lemma_fed(w, data.push(last));
    assert(data.push(last).drop_last() =~= data);
    assert(fed(w, data.push(last)).wakers =~= Seq::<W>::empty());
}

proof fn lemma_fed_wakers<W>(q: QueueState<W>, data: Seq<Seq<u8>>)
    requires
        data.len() <= q.wakers.len(),
    ensures
        fed(q, data).wakers == q.wakers.skip(data.len() as int),
    decreases data.len(),
{
    if data.len() == 0 {
        assert(q.wakers.skip(0) =~= q.wakers);
    } else {
        lemma_fed_wakers(q, data.drop_last());
        assert(fed(q, data).wakers =~= q.wakers.skip(data.len() as int));
    }
}

/// The packets that a socket's queue holds, once callbacks put into it what they were handed of
/// a TCP socket, are what came in on that socket: read one after the other, they are its octets
/// in order, and only those that still wait are missing.
pub proof fn lemma_octets_reach_the_reader<W>(
    states: Seq<TcpSocketState>,
    chunks: Seq<Seq<u8>>,
    wakers: Seq<W>,
)
    requires
        states.len() == chunks.len() + 1,
        forall|i: int|
            0 <= i < chunks.len() ==> crate::stack::tcp_delivered(
                states[i],
                #[trigger] chunks[i],
                states[i + 1],
            ),
    ensures
        joined(fed(QueueState { packets: Seq::empty(), wakers }, chunks).packets)
            + states.last().rx == states[0].rx,
{
    let q = QueueState { packets: Seq::<Seq<u8>>::empty(), wakers };
    lemma_fed(q, chunks);
    assert(q.packets + chunks =~= chunks);
    lemma_tcp_delivered_in_order(states, chunks);
}

/// A packet that comes in joins the queue last, and lets go the task that waits longest, and no
/// other; a packet that is read leaves the front; a task that waits joins the line last.
pub proof fn lemma_queue_steps<W>(q: QueueState<W>, data: Seq<u8>, waker: W)
    ensures
        q.after_data(data).packets.drop_last() == q.packets,
        q.after_data(data).packets.last() == data,
        q.wakers.len() == 0 ==> q.first_waker() is None && q.after_data(data).wakers.len() == 0,
        q.wakers.len() > 0 ==> {
            &&& q.first_waker() matches Some(first)
            &&& seq![first] + q.after_data(data).wakers == q.wakers
        },
        q.packets.len() > 0 ==> seq![q.packets[0]] + q.after_read().packets == q.packets,
        q.after_read().wakers == q.wakers,
        q.after_wait(waker).wakers.drop_last() == q.wakers,
        q.after_wait(waker).wakers.last() == waker,
        q.after_wait(waker).packets == q.packets,
{
    assert(q.after_data(data).packets.drop_last() =~= q.packets);
    assert(q.after_wait(waker).wakers.drop_last() =~= q.wakers);
    if q.wakers.len() > 0 {
        assert(seq![q.wakers[0]] + q.after_data(data).wakers =~= q.wakers);
    }
    if q.packets.len() > 0 {
        assert(seq![q.packets[0]] + q.after_read().packets =~= q.packets);
    }
}

/// A packet that the reading callback stored at the front of its buffer is received as it is.
pub proof fn lemma_packet_received_whole(packet: Seq<u8>, mtu: nat)
    requires
        packet.len() <= mtu,
    ensures
        crate::virtual_tun::resized(
            packet + crate::virtual_tun::zeros(mtu).skip(packet.len() as int),
            packet.len(),
        ) == packet,
{
    assert(crate::virtual_tun::resized(
        packet + crate::virtual_tun::zeros(mtu).skip(packet.len() as int),
        packet.len(),
    ) =~= packet);
}

} // verus!
