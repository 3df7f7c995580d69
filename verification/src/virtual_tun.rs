//! A device whose packets come from one callback and go to another.
use crate::calls::ReadCall;
use crate::reader::Reader;
use std::sync::Arc;
use vstd::prelude::*;

pub mod blank;

use blank::Blank;

verus! {

/// Why no packet could be read.
#[derive(Debug, Clone, Copy, PartialEq, Eq, Structural)]
pub enum VirtualTunReadError {
    WouldBlock,
}

/// Why a packet could not be written.
#[derive(Debug, Clone, Copy, PartialEq, Eq, Structural)]
pub enum VirtualTunWriteError {
    NoData,
}

/// A callback of type `R` that fills a buffer with the next packet and says how long it is.
pub type OnVirtualTunRead<R> = Arc<R>;

/// A callback of type `W` that has a packet of a given length written and sends it on.
pub type OnVirtualTunWrite<W> = Arc<W>;

/// The layer that a device exchanges packets at.
#[derive(Debug, Clone, Copy, PartialEq, Eq, Structural)]
pub enum Medium {
    Ethernet,
    Ip,
}

/// What a device can do.
#[derive(Debug, Clone, Copy, PartialEq, Eq, Structural)]
pub struct DeviceCapabilities {
    /// The size of the largest packet that the device carries.
    pub max_transmission_unit: usize,
}

/// A device that reads packets through a callback of type `R` and writes them through one of
/// type `W`.
pub struct VirtualTunInterface<R, W> {
    mtu: usize,
    on_virtual_tun_read: Reader<R>,
    on_virtual_tun_write: OnVirtualTunWrite<W>,
}

/// The parts of a virtual TUN device.
pub struct VirtualTunParts<R, W> {
    pub mtu: usize,
    pub read: OnVirtualTunRead<R>,
    pub write: OnVirtualTunWrite<W>,
}

impl<R, W> View for VirtualTunInterface<R, W> {
    type V = VirtualTunParts<R, W>;

    closed spec fn view(&self) -> VirtualTunParts<R, W> {
        VirtualTunParts {
            mtu: self.mtu,
            read: self.on_virtual_tun_read.callback(),
            write: self.on_virtual_tun_write,
        }
    }
}

/// `n` zero octets.
pub open spec fn zeros(n: nat) -> Seq<u8> {
    Seq::new(n, |i: int| 0u8)
}

/// `s` cut to `n` octets, or filled up to them with zeros.
pub open spec fn resized(s: Seq<u8>, n: nat) -> Seq<u8> {
    if n <= s.len() {
        s.take(n as int)
    } else {
        s + zeros((n - s.len()) as nat)
    }
}

/// `n` zero octets are `n`, and each of them is zero.
pub proof fn lemma_zeros(n: nat)
    ensures
        zeros(n).len() == n,
        forall|i: int| 0 <= i < n ==> #[trigger] zeros(n)[i] == 0,
{
}

/// Octets that are cut or filled up to `n` are `n`, as they were as far as they went, and zero
/// beyond.
pub proof fn lemma_resized(s: Seq<u8>, n: nat)
    ensures
        resized(s, n).len() == n,
        forall|i: int| 0 <= i < n && i < s.len() ==> #[trigger] resized(s, n)[i] == s[i],
        forall|i: int| s.len() <= i < n ==> #[trigger] resized(s, n)[i] == 0,
{
}

/// A buffer of `n` zero octets.
pub(crate) fn zero_buffer(n: usize) -> (r: Vec<u8>)
    ensures
        r@ == zeros(n as nat),
        r@.len() == n,
        forall|i: int| 0 <= i < n ==> #[trigger] r@[i] == 0,
{
    let r: Vec<u8> = vec![0; n];
    assert(r@ =~= zeros(n as nat));
    r
}

impl<R, W> Clone for VirtualTunInterface<R, W> {
    fn clone(&self) -> (r: Self)
        ensures
            r@ == self@,
    {
        VirtualTunInterface {
            mtu: self.mtu,
            on_virtual_tun_read: self.on_virtual_tun_read.another(),
            on_virtual_tun_write: self.on_virtual_tun_write.clone(),
        }
    }
}

/// A packet that was received, and the device that it came from.
pub struct RxToken<R, W> {
    lower: VirtualTunInterface<R, W>,
    buffer: Vec<u8>,
    size: usize,
}

/// The right to send one packet on a device.
pub struct TxToken<R, W> {
    lower: VirtualTunInterface<R, W>,
}

impl<R, W> VirtualTunInterface<R, W> {
    /// A device with the given callbacks and packet size. The name has no effect.
    pub fn new(
        _name: &str,
        on_virtual_tun_read: OnVirtualTunRead<R>,
        on_virtual_tun_write: OnVirtualTunWrite<W>,
        mtu: usize,
    ) -> (r: Result<VirtualTunInterface<R, W>, smoltcp::Error>)
        ensures
            r is Ok,
            r->Ok_0@ == (VirtualTunParts {
                mtu,
                read: on_virtual_tun_read,
                write: on_virtual_tun_write,
            }),
    {
        Ok(
            VirtualTunInterface {
                mtu,
                on_virtual_tun_read: Reader::new(on_virtual_tun_read),
                on_virtual_tun_write,
            },
        )
    }

    /// What the device can do.
    pub fn capabilities(&self) -> (r: DeviceCapabilities)
        ensures
            r == (DeviceCapabilities { max_transmission_unit: self@.mtu }),
    {
        DeviceCapabilities { max_transmission_unit: self.mtu }
    }

    /// A packet can be sent at any time.
    pub fn transmit(&self) -> (r: Option<TxToken<R, W>>)
        ensures
            r is Some,
            r->0@ == self@,
    {
        Some(TxToken { lower: self.clone() })
    }

    /// The device exchanges bare IP packets.
    pub fn medium(&self) -> (r: Medium)
        ensures
            r == Medium::Ip,
    {
        Medium::Ip
    }
}

/// The reading callback left `filled` in its buffer and said `said`, and the device answered
/// with `received`: nothing where the read would block, or else a packet of the length that was
/// said, together with the right to send one.
pub open spec fn receive_outcome<R, W>(
    device: VirtualTunParts<R, W>,
    filled: Seq<u8>,
    said: Result<usize, VirtualTunReadError>,
    received: Option<(RxToken<R, W>, TxToken<R, W>)>,
) -> bool {
    match said {
        Ok(size) => {
            &&& received matches Some((rx, tx))
            &&& rx@ == resized(filled, size as nat)
            &&& rx.size() == size
            &&& rx.device() == device
            &&& tx@ == device
        },
        Err(VirtualTunReadError::WouldBlock) => received is None,
    }
}

/// A read that would block gives nothing. Any other gives a packet of exactly the length that
/// the callback said, with the octets that it left in the buffer as far as that goes and zeros
/// beyond.
pub proof fn lemma_received_packet<R, W>(
    device: VirtualTunParts<R, W>,
    filled: Seq<u8>,
    said: Result<usize, VirtualTunReadError>,
    received: Option<(RxToken<R, W>, TxToken<R, W>)>,
)
    requires
        receive_outcome(device, filled, said, received),
    ensures
        said is Err <==> received is None,
        said matches Ok(size) ==> {
            &&& received matches Some((rx, tx))
            &&& rx@.len() == size
            &&& rx.size() == size
            &&& forall|i: int| 0 <= i < size && i < filled.len() ==> #[trigger] rx@[i] == filled[i]
            &&& forall|i: int| filled.len() <= i < size ==> #[trigger] rx@[i] == 0
            &&& rx.device() == device
            &&& tx@ == device
        },
{
}

/// Over several receives through one reader the callback is called once for each, in order, and
/// each receive gives what its own call gave: nothing is read and thrown away. `logs` are the
/// calls made before the first receive and after each, `received` what the receives gave.
pub proof fn lemma_received_in_order<R, W>(
    device: VirtualTunParts<R, W>,
    logs: Seq<Seq<ReadCall<R>>>,
    received: Seq<Option<(RxToken<R, W>, TxToken<R, W>)>>,
)
    requires
        logs.len() == received.len() + 1,
        forall|i: int|
            0 <= i < received.len() ==> receive_step(
                device,
                logs[i],
                logs[i + 1],
                #[trigger] received[i],
            ),
    ensures
        logs.last().len() == logs[0].len() + received.len(),
        logs.last().take(logs[0].len() as int) == logs[0],
        forall|i: int|
            0 <= i < received.len() ==> {
                let call = logs.last()[logs[0].len() + i];
                match call.said {
                    Ok(size) => {
                        &&& (#[trigger] received[i]) matches Some((rx, tx))
                        &&& rx@.len() == size
                        &&& forall|j: int|
                            0 <= j < size && j < call.filled.len() ==> #[trigger] rx@[j]
                                == call.filled[j]
                    },
                    Err(_) => received[i] is None,
                }
            },
    decreases received.len(),
{
    if received.len() == 0 {
        assert(logs.last().take(logs[0].len() as int) =~= logs[0]);
    } else {
        let n = received.len() - 1;
        let init = received.drop_last();
        assert forall|i: int| 0 <= i < init.len() implies receive_step(
            device,
            logs.drop_last()[i],
            logs.drop_last()[i + 1],
            #[trigger] init[i],
        ) by {
            assert(receive_step(device, logs[i], logs[i + 1], received[i]));
        }
        lemma_received_in_order(device, logs.drop_last(), init);
        assert(receive_step(device, logs[n], logs[n + 1], received[n]));
        let last = logs.last();
        assert(last.drop_last() == logs[n]);
        assert forall|k: int| 0 <= k < logs[n].len() implies #[trigger] last[k] == logs[n][k] by {
            assert(last.drop_last()[k] == last[k]);
        }
        assert(last.take(logs[0].len() as int) =~= logs[n].take(logs[0].len() as int));
        assert forall|i: int| 0 <= i < received.len() implies {
            let call = last[logs[0].len() + i];
            match call.said {
                Ok(size) => {
                    &&& (#[trigger] received[i]) matches Some((rx, tx))
                    &&& rx@.len() == size
                    &&& forall|j: int|
                        0 <= j < size && j < call.filled.len() ==> #[trigger] rx@[j]
                            == call.filled[j]
                },
                Err(_) => received[i] is None,
            }
        } by {
            if i < n {
                assert(init[i] == received[i]);
                assert(last[logs[0].len() + i] == logs[n][logs[0].len() + i]);
            } else {
                assert(last[logs[0].len() + i] == last.last());
            }
        }
    }
}

/// The device answered with `received` after one call of its reading callback, with a zeroed
/// buffer of the size of the largest packet, was added to the calls made.
pub open spec fn receive_step<R, W>(
    device: VirtualTunParts<R, W>,
    before: Seq<ReadCall<R>>,
    after: Seq<ReadCall<R>>,
    received: Option<(RxToken<R, W>, TxToken<R, W>)>,
) -> bool {
    &&& after.len() == before.len() + 1
    &&& after.drop_last() == before
    &&& after.last().on == *device.read
    &&& after.last().before == zeros(device.mtu as nat)
    &&& receive_outcome(device, after.last().filled, after.last().said, received)
}

impl<R: Fn(&mut [u8]) -> Result<usize, VirtualTunReadError>, W> VirtualTunInterface<R, W> {
    /// A reader for the callback of the device, through which no call was made yet.
    pub fn reader(&self) -> (r: Reader<R>)
        ensures
            r.callback() == self@.read,
            r.calls() == Seq::<ReadCall<R>>::empty(),
    {
        self.on_virtual_tun_read.another()
    }

    /// Reads a packet through `reader`, a reader for the callback of the device. That takes one
    /// call, with a zeroed buffer of the size of the largest packet.
    pub fn receive_from(&self, reader: &mut Reader<R>) -> (r: Option<(RxToken<R, W>, TxToken<R, W>)>)
        requires
            old(reader).callback() == self@.read,
            forall|buffer: &mut [u8]|
                buffer@ == zeros(self@.mtu as nat) ==> #[trigger] call_requires(
                    *self@.read,
                    (buffer,),
                ),
        ensures
            final(reader).callback() == old(reader).callback(),
            receive_step(self@, old(reader).calls(), final(reader).calls(), r),
            exists|buffer: &mut [u8], said: Result<usize, VirtualTunReadError>|
                {
                    &&& buffer@ == zeros(self@.mtu as nat)
                    &&& #[trigger] call_ensures(*self@.read, (buffer,), said)
                    &&& receive_outcome(self@, final(buffer)@, said, r)
                },
    {
        let (mut buffer, read) = reader.read(Blank::seal(zero_buffer(self.mtu)));
        assert(reader.calls().drop_last() =~= old(reader).calls());
        match read {
            Ok(size) => {
                let ghost filled = buffer@;
                buffer.resize(size, 0);
                assert(buffer@ =~= resized(filled, size as nat));
                let rx = RxToken { lower: self.clone(), buffer, size };
                let tx = TxToken { lower: self.clone() };
                Some((rx, tx))
            },
            Err(VirtualTunReadError::WouldBlock) => None,
        }
    }

    /// Reads a packet through the callback, which is handed a zeroed buffer of the size of the
    /// largest packet. What is given comes of the one call of a reader of its own. Calls that go
    /// through other readers of the shared callback leave no trace here.
    pub fn receive(&self) -> (r: Option<(RxToken<R, W>, TxToken<R, W>)>)
        requires
            forall|buffer: &mut [u8]|
                buffer@ == zeros(self@.mtu as nat) ==> #[trigger] call_requires(
                    *self@.read,
                    (buffer,),
                ),
        ensures
            exists|buffer: &mut [u8], said: Result<usize, VirtualTunReadError>|
                {
                    &&& buffer@ == zeros(self@.mtu as nat)
                    &&& #[trigger] call_ensures(*self@.read, (buffer,), said)
                    &&& receive_outcome(self@, final(buffer)@, said, r)
                },
            exists|reader: Reader<R>|
                reader.calls().len() == 1 && #[trigger] receive_step(
                    self@,
                    Seq::empty(),
                    reader.calls(),
                    r,
                ),
    {
        let mut reader = self.reader();
        self.receive_from(&mut reader)
    }
}

impl<R, W> View for RxToken<R, W> {
    type V = Seq<u8>;

    closed spec fn view(&self) -> Seq<u8> {
        self.buffer@
    }
}

impl<R, W> RxToken<R, W> {
    /// The device that the packet came from.
    pub closed spec fn device(self) -> VirtualTunParts<R, W> {
        self.lower@
    }

    /// The length of the packet, as the reading callback said it.
    pub closed spec fn size(self) -> usize {
        self.size
    }

    /// Hands the packet to `f`, and returns what it returns.
    pub fn consume<T, F: FnOnce(&mut [u8]) -> T>(self, f: F) -> (r: T)
        requires
            forall|packet: &mut [u8]|
                packet@ == self@ ==> #[trigger] call_requires(f, (packet,)),
        ensures
            exists|packet: &mut [u8]| packet@ == self@ && #[trigger] call_ensures(f, (packet,), r),
    {
        let (_, r) = Blank::seal(self.buffer).fill_by(f).into_parts();
        r
    }
}

impl<R, W> View for TxToken<R, W> {
    type V = VirtualTunParts<R, W>;

    closed spec fn view(&self) -> VirtualTunParts<R, W> {
        self.lower@
    }
}

impl<R, W> TxToken<R, W> {
    /// Sends a packet of `len` octets, and returns what `f`, which writes it, returned. `send`
    /// runs the writing callback of the device: it has the packet written into a buffer of
    /// that length and sends it on.
    pub fn consume<T, F, X>(self, len: usize, f: F, send: X) -> (r: T) where
        F: FnOnce(&mut [u8]) -> T,
        X: FnOnce(OnVirtualTunWrite<W>, TxSlot<F, T>, usize) -> (
            TxSlot<F, T>,
            Result<(), VirtualTunWriteError>,
        ),

        requires
            forall|slot: TxSlot<F, T>|
                slot@ == (TxProgress { f: Some(f), result: None::<T> })
                    ==> #[trigger] call_requires(send, (self@.write, slot, len)),
            forall|
                slot: TxSlot<F, T>,
                done: (TxSlot<F, T>, Result<(), VirtualTunWriteError>),
            |
                slot@ == (TxProgress { f: Some(f), result: None::<T> })
                    && #[trigger] call_ensures(send, (self@.write, slot, len), done) ==> done.1 is Ok
                    && done.0@.result is Some,
        ensures
            exists|
                slot: TxSlot<F, T>,
                done: (TxSlot<F, T>, Result<(), VirtualTunWriteError>),
            |
                {
                    &&& slot@ == (TxProgress { f: Some(f), result: None::<T> })
                    &&& #[trigger] call_ensures(send, (self@.write, slot, len), done)
                    &&& r == done.0@.result->0
                },
    {
        assert(self@.write == self.lower.on_virtual_tun_write);
        let slot = TxSlot { f: Some(f), result: None };
        assert(slot@ == (TxProgress { f: Some(f), result: None::<T> }));
        let (slot, written) = send(self.lower.on_virtual_tun_write.clone(), slot, len);
        match written {
            Ok(()) => {},
            Err(_) => {
                assert(false);
            },
        }
        slot.result.unwrap()
    }
}

/// Calls the function in `f`, which leaves it.
pub fn call_once_safe<T, F: FnOnce(&mut [u8]) -> T>(f: &mut Option<F>, x: &mut [u8]) -> (r: T)
    requires
        *old(f) is Some,
        forall|b: &mut [u8]| b@ == old(x)@ ==> #[trigger] call_requires(old(f)->0, (b,)),
    ensures
        *final(f) is None,
        exists|b: &mut [u8]|
            b@ == old(x)@ && final(b)@ == final(x)@ && #[trigger] call_ensures(old(f)->0, (b,), r),
{
    let func = f.take().unwrap();
    func(x)
}

/// A packet that is about to be written: the function that writes it, and then what the
/// function returned.
pub struct TxSlot<F, T> {
    f: Option<F>,
    result: Option<T>,
}

/// How far the writing of a packet has come.
pub struct TxProgress<F, T> {
    pub f: Option<F>,
    pub result: Option<T>,
}

impl<F, T> View for TxSlot<F, T> {
    type V = TxProgress<F, T>;

    closed spec fn view(&self) -> TxProgress<F, T> {
        TxProgress { f: self.f, result: self.result }
    }
}

impl<F, T> TxSlot<F, T> {
    /// Whether the packet still waits to be written.
    pub fn is_open(&self) -> (r: bool)
        ensures
            r == self@.f is Some,
    {
        self.f.is_some()
    }

    /// Whether the packet was written.
    pub fn is_filled(&self) -> (r: bool)
        ensures
            r == self@.result is Some,
    {
        self.result.is_some()
    }
}

impl<T, F: FnOnce(&mut [u8]) -> T> TxSlot<F, T> {
    /// Writes the packet into the buffer `x`. This can be done once.
    pub fn fill(&mut self, x: &mut [u8])
        requires
            old(self)@.f is Some,
            forall|b: &mut [u8]|
                b@ == old(x)@ ==> #[trigger] call_requires(old(self)@.f->0, (b,)),
        ensures
            final(self)@.f is None,
            final(self)@.result is Some,
            exists|b: &mut [u8]|
                b@ == old(x)@ && final(b)@ == final(x)@ && #[trigger] call_ensures(
                    old(self)@.f->0,
                    (b,),
                    final(self)@.result->0,
                ),
    {
        assert(self@.f == self.f);
        let result = call_once_safe(&mut self.f, x);
        self.result = Some(result);
        assert(self@.result->0 == result);
    }
}

} // verus!
