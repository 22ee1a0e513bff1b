use std::collections::VecDeque;

use vstd::seq::Seq;

use redleaf::ixgbe::{Ixgbe, IxgbeDevice, PciDrivers};
use redleaf::net::{ErrorKind, NetworkStats};
use redleaf::rref::RRef;
use redleaf::rref_deque::RRefDeque;
use redleaf::virtionet::VirtioNet;

#[test]
fn network_stats_start_at_zero() {
    let s = NetworkStats::new();
    assert_eq!(
        s,
        NetworkStats { tx_count: 0, rx_count: 0, tx_dma_ok: 0, rx_dma_ok: 0, rx_missed: 0, rx_crc_err: 0 }
    );
}

#[test]
fn virtio_counts_submitted_packets_and_moves_nothing() {
    let net = VirtioNet::new();
    let mut packets: VecDeque<Vec<u8>> = VecDeque::new();
    packets.push_back(vec![1, 2, 3]);
    packets.push_back(vec![4]);
    let mut collect: VecDeque<Vec<u8>> = VecDeque::new();
    assert_eq!(net.submit_and_poll(&mut packets, &mut collect, true), Ok(2));
    assert_eq!(packets.len(), 2);
    assert_eq!(collect.len(), 0);
    assert_eq!(net.poll(&mut collect, false), Ok(0));
    assert_eq!(net.get_stats(), Ok(NetworkStats::new()));
    net.test_domain_crossing();
    let _other = net.clone_net();
}

#[test]
fn virtio_rref_calls_hand_queues_back() {
    let net = VirtioNet::new();
    let packets = RRefDeque::<[u8; 1514], 32>::default();
    let mut collect = RRefDeque::<[u8; 1514], 32>::default();
    collect.push_back(RRef::new([7u8; 1514]));
    let (n, packets, collect) = net.submit_and_poll_rref(packets, collect, true, 64).unwrap();
    assert_eq!(n, 1);
    assert_eq!(packets.len(), 0);
    assert_eq!(collect.get(0).map(|p| p[0]), Some(7));

    let big = RRefDeque::<[u8; 1514], 512>::new(std::array::from_fn(|_| None));
    let (n, big) = net.poll_rref(big, false).unwrap();
    assert_eq!(n, 0);
    assert_eq!(big.len(), 0);
}

struct FakeDevice {
    sent: usize,
}

// The fake is not verified: its calls are described by relations that
// allow anything.
impl IxgbeDevice for FakeDevice {
    fn submitted(
        &self,
        _packets: Seq<Vec<u8>>,
        _collect: Seq<Vec<u8>>,
        _tx: bool,
        _debug: bool,
        _after: Self,
        _n: usize,
        _packets_after: Seq<Vec<u8>>,
        _collect_after: Seq<Vec<u8>>,
    ) -> bool {
        true
    }

    fn submitted_rref(
        &self,
        _packets: Seq<[u8; 1514]>,
        _collect: Seq<[u8; 1514]>,
        _tx: bool,
        _pkt_len: usize,
        _debug: bool,
        _after: Self,
        _n: usize,
        _packets_out: Seq<[u8; 1514]>,
        _collect_out: Seq<[u8; 1514]>,
    ) -> bool {
        true
    }

    fn polled(&self, _collect: Seq<Vec<u8>>, _tx: bool, _after: Self, _n: usize, _collect_after: Seq<Vec<u8>>) -> bool {
        true
    }

    fn polled_rref(&self, _collect: Seq<[u8; 1514]>, _tx: bool, _after: Self, _n: usize, _out: Seq<[u8; 1514]>) -> bool {
        true
    }

    fn stats(&self, _after: Self, _stats: NetworkStats) -> bool {
        true
    }

    fn submit_and_poll(
        &mut self,
        packets: &mut VecDeque<Vec<u8>>,
        collect: &mut VecDeque<Vec<u8>>,
        _tx: bool,
        _debug: bool,
    ) -> usize {
        let n = packets.len();
        while let Some(p) = packets.pop_front() {
            collect.push_back(p);
        }
        self.sent += n;
        n
    }

    fn submit_and_poll_rref(
        &mut self,
        mut packets: RRefDeque<[u8; 1514], 32>,
        mut collect: RRefDeque<[u8; 1514], 32>,
        _tx: bool,
        _pkt_len: usize,
        _debug: bool,
    ) -> (usize, RRefDeque<[u8; 1514], 32>, RRefDeque<[u8; 1514], 32>) {
        let mut n = 0;
        while let Some(p) = packets.pop_front() {
            collect.push_back(p);
            n += 1;
        }
        (n, packets, collect)
    }

    fn poll(&mut self, _collect: &mut VecDeque<Vec<u8>>, _tx: bool) -> usize {
        0
    }

    fn poll_rref(&mut self, collect: RRefDeque<[u8; 1514], 512>, _tx: bool) -> (usize, RRefDeque<[u8; 1514], 512>) {
        (0, collect)
    }

    fn get_stats(&mut self) -> NetworkStats {
        let mut s = NetworkStats::new();
        s.tx_count = self.sent as u64;
        s
    }
}

#[test]
fn ixgbe_refuses_requests_before_probe() {
    let mut ixgbe = Ixgbe::<FakeDevice>::new();
    assert!(!ixgbe.active());
    assert_eq!(ixgbe.get_vid(), 0x8086);
    assert_eq!(ixgbe.get_did(), 0x10fb);
    assert_eq!(ixgbe.get_driver_type(), PciDrivers::IxgbeDriver);
    let mut packets: VecDeque<Vec<u8>> = VecDeque::new();
    packets.push_back(vec![1]);
    let mut collect: VecDeque<Vec<u8>> = VecDeque::new();
    assert_eq!(ixgbe.submit_and_poll(&mut packets, &mut collect, true), Err(ErrorKind::UninitializedDevice));
    assert_eq!(packets.len(), 1);
    assert_eq!(ixgbe.poll(&mut collect, false), Err(ErrorKind::UninitializedDevice));
    assert_eq!(ixgbe.get_stats(), Err(ErrorKind::UninitializedDevice));
    let r = ixgbe.submit_and_poll_rref(RRefDeque::default(), RRefDeque::default(), true, 64);
    assert!(matches!(r, Err(ErrorKind::UninitializedDevice)));
    let big = RRefDeque::<[u8; 1514], 512>::new(std::array::from_fn(|_| None));
    assert!(matches!(ixgbe.poll_rref(big, false), Err(ErrorKind::UninitializedDevice)));
    ixgbe.probe(None);
    assert!(!ixgbe.active());
}

#[test]
fn ixgbe_forwards_requests_after_probe() {
    let mut ixgbe = Ixgbe::new();
    ixgbe.probe(Some(FakeDevice { sent: 0 }));
    assert!(ixgbe.active());
    let mut packets: VecDeque<Vec<u8>> = VecDeque::new();
    packets.push_back(vec![1]);
    packets.push_back(vec![2]);
    let mut collect: VecDeque<Vec<u8>> = VecDeque::new();
    assert_eq!(ixgbe.submit_and_poll(&mut packets, &mut collect, true), Ok(2));
    assert_eq!(collect.len(), 2);
    assert_eq!(ixgbe.get_stats().map(|s| s.tx_count), Ok(2));

    let mut p = RRefDeque::<[u8; 1514], 32>::default();
    p.push_back(RRef::new([3u8; 1514]));
    let (n, p, c) = ixgbe.submit_and_poll_rref(p, RRefDeque::default(), true, 64).unwrap();
    assert_eq!((n, p.len(), c.len()), (1, 0, 1));
    assert_eq!(ixgbe.get_vid(), 0x8086);
}
