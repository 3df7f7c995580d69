//! A TCP socket that tasks read from and write to.
use crate::addr::SocketAddr;
use crate::socket::{SocketConnectionError, SocketReceiveError, SocketSendError};
use crate::stack::StackState;
use crate::with_device::SmolStackWithDevice;
use smoltcp::socket::SocketHandle;
use std::collections::VecDeque;
use std::sync::Arc;
use tokio::io::ReadBuf;
use vstd::prelude::*;

verus! {

/// A buffer that a task reads into.
#[verifier::external_type_specification]
#[verifier::external_body]
pub struct ExReadBuf<'a>(ReadBuf<'a>);

/// The octets that were read into a buffer so far.
pub uninterp spec fn read_buf_filled(buf: ReadBuf<'_>) -> Seq<u8>;

/// How many more octets fit into a buffer.
pub uninterp spec fn read_buf_remaining(buf: ReadBuf<'_>) -> nat;

/// Calls `ReadBuf::put_slice`, which appends octets that fit to those read so far; it panics
/// where they do not fit.
#[verifier::external_body]
fn put_slice(buf: &mut ReadBuf<'_>, data: &[u8])
    requires
        data@.len() <= read_buf_remaining(*old(buf)),
    ensures
        read_buf_filled(*final(buf)) == read_buf_filled(*old(buf)) + data@,
        read_buf_remaining(*final(buf)) + data@.len() == read_buf_remaining(*old(buf)),
{
    buf.put_slice(data)
}

/// Calls `ReadBuf::remaining`: how many more octets fit into a buffer.
#[verifier::external_body]
fn remaining(buf: &ReadBuf<'_>) -> (r: usize)
    ensures
        r == read_buf_remaining(*buf),
{
    buf.remaining()
}

/// The packets that came in on a socket and were not read yet, and the tasks, known by wakers
/// of type `W`, that wait for one; both in the order in which they came.
pub struct SocketQueue<W> {
    packets: VecDeque<Vec<u8>>,
    wakers: VecDeque<W>,
}

/// What a queue of packets and waiting tasks holds.
#[verifier::ext_equal]
pub struct QueueState<W> {
    pub packets: Seq<Seq<u8>>,
    pub wakers: Seq<W>,
}

impl<W> QueueState<W> {
    pub open spec fn empty() -> QueueState<W> {
        QueueState { packets: Seq::empty(), wakers: Seq::empty() }
    }

    /// The task that waits longest.
    pub open spec fn first_waker(self) -> Option<W> {
        if self.wakers.len() > 0 {
            Some(self.wakers[0])
        } else {
            None
        }
    }

    /// The queue after a packet came in: the task that waits longest is let go.
    pub open spec fn after_data(self, data: Seq<u8>) -> QueueState<W> {
        QueueState {
            packets: self.packets.push(data),
            wakers: if self.wakers.len() > 0 {
                self.wakers.skip(1)
            } else {
                self.wakers
            },
        }
    }

    /// The queue after its first packet was read.
    pub open spec fn after_read(self) -> QueueState<W> {
        QueueState { packets: self.packets.skip(1), ..self }
    }

    /// The queue after a task found no packet and waits.
    pub open spec fn after_wait(self, waker: W) -> QueueState<W> {
        QueueState { wakers: self.wakers.push(waker), ..self }
    }
}

/// Whether a read is done, or waits for a packet.
#[derive(Debug, Clone, Copy, PartialEq, Eq, Structural)]
pub enum ReadPoll {
    Ready,
    Pending,
}

impl<W> View for SocketQueue<W> {
    type V = QueueState<W>;

    closed spec fn view(&self) -> QueueState<W> {
        QueueState {
            packets: self.packets@.map_values(|p: Vec<u8>| p@),
            wakers: self.wakers@,
        }
    }
}

impl<W> SocketQueue<W> {
    /// A queue without packets and waiting tasks.
    pub fn new() -> (r: Self)
        ensures
            r@ == QueueState::<W>::empty(),
    {
        let r = SocketQueue { packets: VecDeque::new(), wakers: VecDeque::new() };
        assert(r@ =~= QueueState::<W>::empty());
        r
    }

    /// Takes in a packet. The task that waits longest is handed out, to be woken.
    pub fn on_data(&mut self, data: &[u8]) -> (r: (Result<usize, SocketReceiveError>, Option<W>))
        ensures
            final(self)@ == old(self)@.after_data(data@),
            r.0 == Ok::<usize, SocketReceiveError>(data@.len() as usize),
            r.1 == old(self)@.first_waker(),
    {
        let packet = vstd::slice::slice_to_vec(data);
        self.packets.push_back(packet);
        let waker = self.wakers.pop_front();
        proof {
            assert(self@.packets =~= old(self)@.packets.push(data@));
            assert(self@.wakers =~= old(self)@.after_data(data@).wakers);
        }
        (Ok(data.len()), waker)
    }

    /// The length of the packet that is read next.
    pub fn next_len(&self) -> (r: Option<usize>)
        ensures
            r is Some <==> self@.packets.len() > 0,
            r matches Some(n) ==> n == self@.packets[0].len(),
    {
        if self.packets.len() > 0 {
            Some(self.packets[0].len())
        } else {
            None
        }
    }

    /// Reads the first packet into `buf`, which must have room for it. Where there is no
    /// packet, the task of `waker` waits for one.
    pub fn poll_read(&mut self, buf: &mut ReadBuf<'_>, waker: W) -> (r: ReadPoll)
        requires
            old(self)@.packets.len() > 0 ==> old(self)@.packets[0].len() <= read_buf_remaining(
                *old(buf),
            ),
        ensures
            r == (if old(self)@.packets.len() > 0 {
                ReadPoll::Ready
            } else {
                ReadPoll::Pending
            }),
            r == ReadPoll::Ready ==> {
                &&& final(self)@ == old(self)@.after_read()
                &&& read_buf_filled(*final(buf)) == read_buf_filled(*old(buf))
                    + old(self)@.packets[0]
                &&& read_buf_remaining(*final(buf)) + old(self)@.packets[0].len()
                    == read_buf_remaining(*old(buf))
            },
            r == ReadPoll::Pending ==> {
                &&& final(self)@ == old(self)@.after_wait(waker)
                &&& *final(buf) == *old(buf)
            },
    {
        if let Some(packet) = self.packets.pop_front() {
            put_slice(buf, packet.as_slice());
            assert(self@.packets =~= old(self)@.packets.skip(1));
            ReadPoll::Ready
        } else {
            self.wakers.push_back(waker);
            assert(self@.packets =~= old(self)@.packets);
            ReadPoll::Pending
        }
    }

    /// Reads the first packet into `buf` where it has room for it, and waits as `poll_read`
    /// does where there is no packet. `None` says that the packet does not fit: nothing is read
    /// then, and the task does not wait.
    pub fn try_poll_read(&mut self, buf: &mut ReadBuf<'_>, waker: W) -> (r: Option<ReadPoll>)
        ensures
            r is None <==> old(self)@.packets.len() > 0 && old(self)@.packets[0].len()
                > read_buf_remaining(*old(buf)),
            r is None ==> final(self)@ == old(self)@ && *final(buf) == *old(buf),
            r == Some(ReadPoll::Ready) ==> {
                &&& old(self)@.packets.len() > 0
                &&& final(self)@ == old(self)@.after_read()
                &&& read_buf_filled(*final(buf)) == read_buf_filled(*old(buf))
                    + old(self)@.packets[0]
                &&& read_buf_remaining(*final(buf)) + old(self)@.packets[0].len()
                    == read_buf_remaining(*old(buf))
            },
            r == Some(ReadPoll::Pending) ==> {
                &&& old(self)@.packets.len() == 0
                &&& final(self)@ == old(self)@.after_wait(waker)
                &&& *final(buf) == *old(buf)
            },
    {
        if let Some(n) = self.next_len() {
            if n > remaining(buf) {
                return None;
            }
        }
        Some(self.poll_read(buf, waker))
    }
}

/// A TCP socket of a stack, with the queue of the packets that came in on it. The stack and
/// the queue are shared, behind locks of types `S` and `L`.
pub struct SmolSocket<S, L> {
    socket_handle: SocketHandle,
    stack: Arc<S>,
    queue: Arc<L>,
}

/// The parts of a socket.
pub struct SmolSocketParts<S, L> {
    pub socket_handle: SocketHandle,
    pub stack: Arc<S>,
    pub queue: Arc<L>,
}

impl<S, L> View for SmolSocket<S, L> {
    type V = SmolSocketParts<S, L>;

    closed spec fn view(&self) -> SmolSocketParts<S, L> {
        SmolSocketParts {
            socket_handle: self.socket_handle,
            stack: self.stack,
            queue: self.queue,
        }
    }
}

/// `queue` is what `lock` made of a queue without packets and waiting tasks.
pub open spec fn locked_empty<W, L, K: FnOnce(SocketQueue<W>) -> L>(lock: K, queue: L) -> bool {
    exists|q: SocketQueue<W>|
        q@ == QueueState::<W>::empty() && #[trigger] call_ensures(lock, (q,), queue)
}

/// A queue of a new socket is what its lock returned on one with no packets and no waiting
/// tasks.
pub proof fn lemma_locked_empty<W, L, K: FnOnce(SocketQueue<W>) -> L>(lock: K, queue: L)
    requires
        locked_empty(lock, queue),
    ensures
        exists|q: SocketQueue<W>|
            {
                &&& q@.packets.len() == 0
                &&& q@.wakers.len() == 0
                &&& #[trigger] call_ensures(lock, (q,), queue)
            },
{
}

/// The socket `socket` was made: it has a queue of its own that `lock` made, and its TCP socket
/// was added to the stack with a callback that `on_data` made for that queue.
pub open spec fn socket_made<T, U, Q, S, L, W, K, D>(
    before: StackState<T, U, Q>,
    lock: K,
    on_data: D,
    socket: SmolSocketParts<S, L>,
    after: StackState<T, U, Q>,
) -> bool where K: FnOnce(SocketQueue<W>) -> L, D: FnOnce(Arc<L>) -> T {
    &&& locked_empty(lock, *socket.queue)
    &&& exists|callback: Arc<T>|
        {
            &&& call_ensures(on_data, (socket.queue,), *callback)
            &&& #[trigger] crate::stack::tcp_socket_added(
                before,
                Some(callback),
                socket.socket_handle,
                after,
            )
        }
}

impl<S, L> SmolSocket<S, L> {
    /// Adds a TCP socket to `stack_ref`, the stack that `stack` shares. `lock` puts its queue
    /// behind a lock, and `on_data` makes the callback that fills the queue.
    pub fn new<V, N, P, T, U, Q, W, K, D>(
        stack: Arc<S>,
        stack_ref: &mut SmolStackWithDevice<V, N, P, T, U, Q>,
        lock: K,
        on_data: D,
    ) -> (r: Result<SmolSocket<S, L>, ()>) where
        K: FnOnce(SocketQueue<W>) -> L,
        D: FnOnce(Arc<L>) -> T,

        requires
            old(stack_ref)@.grows,
            forall|q: SocketQueue<W>|
                q@ == QueueState::<W>::empty() ==> #[trigger] call_requires(lock, (q,)),
            forall|l: Arc<L>|
                locked_empty(lock, *l) ==> #[trigger] call_requires(on_data, (l,)),
        ensures
            r is Ok,
            r->Ok_0@.stack == stack,
            socket_made(old(stack_ref)@, lock, on_data, r->Ok_0@, final(stack_ref)@),
            old(stack_ref).same_device(*final(stack_ref)),
    {
        let queue = Arc::new(lock(SocketQueue::new()));
        let callback = Arc::new(on_data(queue.clone()));
        let ghost added = callback;
        match stack_ref.add_tcp_socket(Some(callback)) {
            Ok(socket_handle) => {
                let socket = SmolSocket { socket_handle, stack, queue };
                assert(crate::stack::tcp_socket_added(
                    old(stack_ref)@,
                    Some(added),
                    socket@.socket_handle,
                    stack_ref@,
                ));
                Ok(socket)
            },
            Err(()) => Err(()),
        }
    }

    /// The handle of the socket in its stack.
    pub fn socket_handle(&self) -> (r: SocketHandle)
        ensures
            r == self@.socket_handle,
    {
        self.socket_handle
    }

    /// The stack that the socket belongs to.
    pub fn stack(&self) -> (r: &Arc<S>)
        ensures
            *r == self@.stack,
    {
        &self.stack
    }

    /// The queue of the packets that came in on the socket.
    pub fn queue(&self) -> (r: &Arc<L>)
        ensures
            *r == self@.queue,
    {
        &self.queue
    }

    /// Writes `buf` to the socket, whose stack is `stack`. All of it counts as written,
    /// whatever the socket took.
    pub fn poll_write<V, N, P, T, U, Q>(
        &self,
        stack: &mut SmolStackWithDevice<V, N, P, T, U, Q>,
        buf: &[u8],
    ) -> (r: usize)
        requires
            old(stack)@.has_tcp(self@.socket_handle),
        ensures
            r == buf@.len(),
            exists|sent: Result<usize, SocketSendError>| #[trigger]
                crate::stack::tcp_sent(
                    old(stack)@,
                    self@.socket_handle,
                    buf@,
                    sent,
                    final(stack)@,
                ),
            old(stack).same_device(*final(stack)),
    {
        let _ = stack.tcp_socket_send(self.socket_handle, buf);
        buf.len()
    }

    /// Sends `data` on the socket, whose stack is `stack`.
    pub fn tcp_socket_send<V, N, P, T, U, Q>(
        &self,
        stack: &mut SmolStackWithDevice<V, N, P, T, U, Q>,
        data: &[u8],
    ) -> (r: Result<usize, SocketSendError>)
        requires
            old(stack)@.has_tcp(self@.socket_handle),
        ensures
            crate::stack::tcp_sent(old(stack)@, self@.socket_handle, data@, r, final(stack)@),
            old(stack).same_device(*final(stack)),
    {
        stack.tcp_socket_send(self.socket_handle, data)
    }

    /// Begins a connection of the socket, whose stack is `stack`.
    pub fn tcp_connect<V, N, P, T, U, Q>(
        &self,
        stack: &mut SmolStackWithDevice<V, N, P, T, U, Q>,
        addr: SocketAddr,
        src_port: u16,
    ) -> (r: Result<(), SocketConnectionError>)
        requires
            old(stack)@.has_tcp(self@.socket_handle),
        ensures
            crate::stack::tcp_connected(
                old(stack)@,
                self@.socket_handle,
                addr,
                src_port,
                r,
                final(stack)@,
            ),
            old(stack).same_device(*final(stack)),
    {
        stack.tcp_connect(self.socket_handle, addr, src_port)
    }

    /// Sends a datagram on the socket, whose stack is `stack` and has a UDP socket under the
    /// handle.
    pub fn udp_socket_send<V, N, P, T, U, Q>(
        &self,
        stack: &mut SmolStackWithDevice<V, N, P, T, U, Q>,
        data: &[u8],
        addr: SocketAddr,
    ) -> (r: Result<usize, SocketSendError>)
        requires
            old(stack)@.has_udp(self@.socket_handle),
        ensures
            crate::stack::udp_sent(
                old(stack)@,
                self@.socket_handle,
                data@,
                addr,
                r,
                final(stack)@,
            ),
            old(stack).same_device(*final(stack)),
    {
        stack.udp_socket_send(self.socket_handle, data, addr)
    }
}

} // verus!
