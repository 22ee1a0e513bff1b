use vstd::prelude::*;

use crate::rref::RRef;
use crate::rref_deque::RRefDeque;

verus! {

/// The packets the domain-crossing benchmark starts with: 32 packets of 100
/// bytes, packet `i` filled with the byte `i`.
pub fn test_packets() -> (d: RRefDeque<[u8; 100], 32>)
    ensures
        d@.len() == 32,
        forall|i: int, j: int| 0 <= i < 32 && 0 <= j < 100 ==> #[trigger] d@[i]@[j] == i,
{
    let mut packets = RRefDeque::<[u8; 100], 32>::new([
        None, None, None, None, None, None, None, None,
        None, None, None, None, None, None, None, None,
        None, None, None, None, None, None, None, None,
        None, None, None, None, None, None, None, None,
    ]);
    let mut i: u8 = 0;
    while i < 32
        invariant
            i <= 32,
            packets@.len() == i,
            forall|k: int, j: int| 0 <= k < i && 0 <= j < 100 ==> #[trigger] packets@[k]@[j] == k,
        decreases 32 - i,
    {
        let packet: [u8; 100] = [i; 100];
        assert(forall|j: int| 0 <= j < 100 ==> packet@[j] == i);
        let rejected = packets.push_back(RRef::new(packet));
        i = i + 1;
    }
    packets
}

/// The domain the benchmark crosses into: it takes a queue of packets to
/// send and a queue to reap into, and hands both back.
///
/// Implemented by that domain; its call is described by a relation that the
/// implementation defines.
pub trait DomA: Sized {
    /// A call on `self` with queues holding `packets` and `reap` may leave
    /// the domain as `after` and return `n` with queues holding
    /// `packets_out` and `reap_out`, in that order.
    spec fn tx_submitted(
        &self,
        packets: Seq<[u8; 100]>,
        reap: Seq<[u8; 100]>,
        after: Self,
        n: usize,
        packets_out: Seq<[u8; 100]>,
        reap_out: Seq<[u8; 100]>,
    ) -> bool;

    fn tx_submit_and_poll(
        &mut self,
        packets: RRefDeque<[u8; 100], 32>,
        reap: RRefDeque<[u8; 100], 32>,
    ) -> (r: (usize, RRefDeque<[u8; 100], 32>, RRefDeque<[u8; 100], 32>))
        ensures
            old(self).tx_submitted(packets@, reap@, *final(self), r.0, r.1@, r.2@),
    ;
}

/// One round of the benchmark: a call on `a` with `packets` and `reap` may
/// leave the domain as `a2`, and the queues of the next round are the reap
/// queue and the packet queue it handed back, swapped.
pub open spec fn round<A: DomA>(
    a: A,
    packets: Seq<[u8; 100]>,
    reap: Seq<[u8; 100]>,
    a2: A,
    packets2: Seq<[u8; 100]>,
    reap2: Seq<[u8; 100]>,
) -> bool {
    exists|n: usize| #[trigger] a.tx_submitted(packets, reap, a2, n, reap2, packets2)
}

/// A state of the benchmark between rounds: the domain, the packet queue
/// and the reap queue.
pub type RoundState<A> = (A, Seq<[u8; 100]>, Seq<[u8; 100]>);

/// `trace` is a run of `k` rounds from `start` to `end`: it lists the
/// states between rounds, each round leading from one to the next.
pub open spec fn is_run<A: DomA>(
    trace: Seq<RoundState<A>>,
    start: RoundState<A>,
    k: nat,
    end: RoundState<A>,
) -> bool {
    &&& trace.len() == k + 1
    &&& trace[0] == start
    &&& trace[k as int] == end
    &&& forall|j: int|
        0 <= j < k ==> #[trigger] round(
            trace[j].0,
            trace[j].1,
            trace[j].2,
            trace[j + 1].0,
            trace[j + 1].1,
            trace[j + 1].2,
        )
}

/// Runs `ops` rounds: each hands the two queues to `dom_a`, and the next
/// round sends what came back as reaped and reaps into what came back as
/// sent. Returns the packet queue and the reap queue after the last round.
pub fn submit_and_poll_rounds<A: DomA>(
    dom_a: &mut A,
    packets: RRefDeque<[u8; 100], 32>,
    reap: RRefDeque<[u8; 100], 32>,
    ops: u64,
) -> (r: (RRefDeque<[u8; 100], 32>, RRefDeque<[u8; 100], 32>))
    ensures
        exists|trace: Seq<RoundState<A>>|
            is_run(
                trace,
                (*old(dom_a), packets@, reap@),
                ops as nat,
                (*final(dom_a), r.0@, r.1@),
            ),
{
    let ghost start: RoundState<A> = (*dom_a, packets@, reap@);
    let ghost mut trace: Seq<RoundState<A>> = seq![start];
    let mut packets = packets;
    let mut reap = reap;
    let mut i: u64 = 0;
    while i < ops
        invariant
            i <= ops,
            is_run(trace, start, i as nat, (*dom_a, packets@, reap@)),
        decreases ops - i,
    {
        let ghost am = *dom_a;
        let ghost pm = packets@;
        let ghost rm = reap@;
        let (num, sent, reaped) = dom_a.tx_submit_and_poll(packets, reap);
        packets = reaped;
        reap = sent;
        proof {
            assert(am.tx_submitted(pm, rm, *dom_a, num, reap@, packets@));
            assert(round(am, pm, rm, *dom_a, packets@, reap@));
            let old_trace = trace;
            trace = trace.push((*dom_a, packets@, reap@));
            assert forall|j: int| 0 <= j < i + 1 implies #[trigger] round(
                trace[j].0,
                trace[j].1,
                trace[j].2,
                trace[j + 1].0,
                trace[j + 1].1,
                trace[j + 1].2,
            ) by {
                if j < i {
                    assert(trace[j] == old_trace[j]);
                    assert(trace[j + 1] == old_trace[j + 1]);
                    assert(round(
                        old_trace[j].0,
                        old_trace[j].1,
                        old_trace[j].2,
                        old_trace[j + 1].0,
                        old_trace[j + 1].1,
                        old_trace[j + 1].2,
                    ));
                }
            }
        }
        i = i + 1;
    }
    (packets, reap)
}

/// Round law: in every round of a run, the domain is called with the packet
/// queue of the state before the round as the queue to send and its reap
/// queue as the queue to reap into; the queue it hands back as sent becomes
/// the next reap queue, and the one it hands back as reaped becomes the next
/// packet queue.
pub proof fn lemma_round_calls<A: DomA>(
    trace: Seq<RoundState<A>>,
    start: RoundState<A>,
    k: nat,
    end: RoundState<A>,
    j: int,
)
    requires
        is_run(trace, start, k, end),
        0 <= j < k,
    ensures
        exists|n: usize|
            #[trigger] trace[j].0.tx_submitted(
                trace[j].1,
                trace[j].2,
                trace[j + 1].0,
                n,
                trace[j + 1].2,
                trace[j + 1].1,
            ),
{
    assert(round(
        trace[j].0,
        trace[j].1,
        trace[j].2,
        trace[j + 1].0,
        trace[j + 1].1,
        trace[j + 1].2,
    ));
}

/// Round law for a single round: the domain is called once, with `packets`
/// to send and `reap` to reap into, and the result is the queue it handed
/// back as reaped, then the one it handed back as sent.
pub proof fn lemma_single_round<A: DomA>(
    trace: Seq<RoundState<A>>,
    a: A,
    packets: Seq<[u8; 100]>,
    reap: Seq<[u8; 100]>,
    a2: A,
    packets2: Seq<[u8; 100]>,
    reap2: Seq<[u8; 100]>,
)
    requires
        is_run(trace, (a, packets, reap), 1, (a2, packets2, reap2)),
    ensures
        exists|n: usize| #[trigger] a.tx_submitted(packets, reap, a2, n, reap2, packets2),
{
    lemma_round_calls(trace, (a, packets, reap), 1, (a2, packets2, reap2), 0);
}

/// Zero rounds leave the domain and both queues as they were.
pub proof fn lemma_no_round<A: DomA>(
    trace: Seq<RoundState<A>>,
    start: RoundState<A>,
    end: RoundState<A>,
)
    requires
        is_run(trace, start, 0, end),
    ensures
        end == start,
{
}

} // verus!
