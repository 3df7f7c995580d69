//! The callbacks of a virtual TUN device that carries its packets over a VPN.
use crate::virtual_tun::{zero_buffer, VirtualTunReadError, VirtualTunWriteError};
use vstd::prelude::*;

verus! {

/// Why a VPN had no packet to give.
#[derive(Debug)]
pub enum PhyReceiveError {
    NoDataAvailable,
    Unknown(String),
}

/// Why a VPN did not take a packet.
#[derive(Debug)]
pub enum PhySendError {
    Unknown(String),
}

/// Puts a packet at the front of a buffer, and returns its length.
pub fn store_packet(buffer: &mut [u8], packet: &[u8]) -> (size: usize)
    requires
        packet@.len() <= old(buffer)@.len(),
    ensures
        size == packet@.len(),
        final(buffer)@ == packet@ + old(buffer)@.skip(packet@.len() as int),
{
    let ghost before = buffer@;
    let mut i: usize = 0;
    while i < packet.len()
        invariant
            i <= packet@.len() <= before.len(),
            buffer@ =~= packet@.take(i as int) + before.skip(i as int),
        decreases packet@.len() - i,
    {
        buffer[i] = packet[i];
        i += 1;
    }
    packet.len()
}

/// What a read from the VPN comes to, once it ended with `received` and the last packet that
/// it stored, if any, had `size` octets.
pub open spec fn read_outcome(received: Result<(), PhyReceiveError>, size: usize) -> Result<
    usize,
    VirtualTunReadError,
> {
    match received {
        Ok(()) => Ok(size),
        Err(_) => Err(VirtualTunReadError::WouldBlock),
    }
}

/// A read that a packet came of says its length, and any other that it would block.
pub proof fn lemma_read_outcome(received: Result<(), PhyReceiveError>, size: usize)
    ensures
        received is Ok ==> (read_outcome(received, size) matches Ok(n) && n == size),
        received is Err ==> (read_outcome(received, size) matches Err(
            VirtualTunReadError::WouldBlock,
        )),
{
}

/// Reads a packet from the VPN into `buffer`. `receive` stores the packet there and its length
/// in the place that it is handed, which holds zero before.
pub fn on_virtual_tun_read<X>(buffer: &mut [u8], receive: X) -> (r: Result<
    usize,
    VirtualTunReadError,
>) where X: FnOnce(&mut [u8], &mut usize) -> Result<(), PhyReceiveError>
    requires
        forall|b: &mut [u8], n: &mut usize|
            b@ == old(buffer)@ && *n == 0 ==> #[trigger] call_requires(receive, (b, n)),
        forall|b: &mut [u8], n: &mut usize, received: Result<(), PhyReceiveError>|
            b@ == old(buffer)@ && *n == 0 && #[trigger] call_ensures(receive, (b, n), received)
                ==> !(received matches Err(PhyReceiveError::Unknown(_))),
    ensures
        exists|b: &mut [u8], n: &mut usize, received: Result<(), PhyReceiveError>|
            {
                &&& b@ == old(buffer)@
                &&& final(b)@ == final(buffer)@
                &&& *n == 0
                &&& #[trigger] call_ensures(receive, (b, n), received)
                &&& r == read_outcome(received, *final(n))
            },
{
    let mut size: usize = 0;
    match receive(buffer, &mut size) {
        Ok(()) => Ok(size),
        Err(PhyReceiveError::NoDataAvailable) => Err(VirtualTunReadError::WouldBlock),
        Err(PhyReceiveError::Unknown(_)) => {
            assert(false);
            Err(VirtualTunReadError::WouldBlock)
        },
    }
}

/// Writes a packet of `size` octets to the VPN: `f` writes it into a zeroed buffer, and `send`
/// sends that buffer on.
pub fn on_virtual_tun_write<F, S>(f: F, size: usize, send: S) -> (r: Result<
    (),
    VirtualTunWriteError,
>) where F: FnOnce(&mut [u8]), S: FnOnce(&[u8]) -> Result<(), PhySendError>
    requires
        forall|b: &mut [u8]|
            b@ == crate::virtual_tun::zeros(size as nat) ==> #[trigger] call_requires(f, (b,)),
        forall|b: &mut [u8], packet: &[u8]|
            b@ == crate::virtual_tun::zeros(size as nat) && packet@ == final(b)@
                && #[trigger] call_ensures(f, (b,), ()) ==> #[trigger] call_requires(
                send,
                (packet,),
            ),
        forall|b: &mut [u8], packet: &[u8], sent: Result<(), PhySendError>|
            b@ == crate::virtual_tun::zeros(size as nat) && packet@ == final(b)@
                && #[trigger] call_ensures(f, (b,), ()) && #[trigger] call_ensures(
                send,
                (packet,),
                sent,
            ) ==> sent is Ok,
    ensures
        r is Ok,
        exists|b: &mut [u8], packet: &[u8], sent: Result<(), PhySendError>|
            {
                &&& b@ == crate::virtual_tun::zeros(size as nat)
                &&& b@.len() == size
                &&& packet@ == final(b)@
                &&& #[trigger] call_ensures(f, (b,), ())
                &&& #[trigger] call_ensures(send, (packet,), sent)
            },
{
    let mut buffer = zero_buffer(size);
    f(buffer.as_mut_slice());
    match send(buffer.as_slice()) {
        Ok(()) => Ok(()),
        Err(_) => {
            assert(false);
            Ok(())
        },
    }
}

} // verus!
