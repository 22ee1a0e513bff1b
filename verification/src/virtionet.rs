use vstd::prelude::*;
use std::collections::VecDeque;

use crate::net::{ErrorKind, NetworkStats, zero_stats};
use crate::rref_deque::RRefDeque;

verus! {

/// A virtio network device that does not move packets yet: submitted
/// packets are counted and left where they are, and nothing is received.
pub struct VirtioNet {}

impl VirtioNet {
    pub fn new() -> Self {
        Self {}
    }

    #[allow(dead_code)]
    fn init(&mut self) {
    }

    #[allow(dead_code)]
    fn init_device(&mut self) {
    }

    #[allow(dead_code)]
    fn init_features(&mut self) {
    }

    #[allow(dead_code)]
    fn init_queue(&mut self) {
    }

    /// Another handle on a virtio network device.
    pub fn clone_net(&self) -> VirtioNet {
        Self::new()
    }

    /// Reports every packet of `packets` as submitted; neither queue changes.
    pub fn submit_and_poll(
        &self,
        packets: &mut VecDeque<Vec<u8>>,
        collect: &mut VecDeque<Vec<u8>>,
        tx: bool,
    ) -> (r: Result<usize, ErrorKind>)
        ensures
            r == Ok::<usize, ErrorKind>(old(packets)@.len() as usize),
            final(packets)@ == old(packets)@,
            final(collect)@ == old(collect)@,
    {
        let ret = packets.len();
        Ok(ret)
    }

    /// Hands both queues back unchanged, with the number of packets in
    /// `collect`.
    pub fn submit_and_poll_rref(
        &self,
        packets: RRefDeque<[u8; 1514], 32>,
        collect: RRefDeque<[u8; 1514], 32>,
        tx: bool,
        pkt_len: usize,
    ) -> (r: Result<(usize, RRefDeque<[u8; 1514], 32>, RRefDeque<[u8; 1514], 32>), ErrorKind>)
        ensures
            r == Ok::<_, ErrorKind>((collect@.len() as usize, packets, collect)),
    {
        Ok((collect.len(), packets, collect))
    }

    /// Receives nothing.
    pub fn poll(&self, collect: &mut VecDeque<Vec<u8>>, tx: bool) -> (r: Result<usize, ErrorKind>)
        ensures
            r == Ok::<usize, ErrorKind>(0),
            final(collect)@ == old(collect)@,
    {
        Ok(0)
    }

    /// Receives nothing, and hands `collect` back unchanged.
    pub fn poll_rref(&self, collect: RRefDeque<[u8; 1514], 512>, tx: bool) -> (r: Result<
        (usize, RRefDeque<[u8; 1514], 512>),
        ErrorKind,
    >)
        ensures
            r == Ok::<_, ErrorKind>((0usize, collect)),
    {
        Ok((0, collect))
    }

    /// Counters that are all zero.
    pub fn get_stats(&self) -> (r: Result<NetworkStats, ErrorKind>)
        ensures
            r == Ok::<NetworkStats, ErrorKind>(zero_stats()),
    {
        Ok(NetworkStats::new())
    }

    /// Does nothing: a call that only crosses into the device's domain.
    pub fn test_domain_crossing(&self) {
    }
}

} // verus!
