use redleaf::dom_b::{submit_and_poll_rounds, test_packets, DomA};
use redleaf::rref_deque::RRefDeque;
use vstd::seq::Seq;
use redleaf::unwind::{register_cont, simple_result, simple_result_err, Continuation, Foo, FooTrait};

#[test]
fn register_cont_copies_every_register() {
    let mut saved = Continuation::zeroed();
    let cont = Continuation {
        func: 1, rax: 2, rcx: 3, rdx: 4, rsi: 5, rdi: 6, r8: 7, r9: 8, r10: 9, rflags: 10,
        r15: 11, r14: 12, r13: 13, r12: 14, r11: 15, rbx: 16, rbp: 17, rsp: 18,
    };
    register_cont(&mut saved, &cont);
    assert_eq!(saved, cont);
}

#[test]
fn simple_results() {
    let foo = Foo::new(55);
    assert_eq!(foo.simple_result(3), Ok(55));
    assert_eq!(simple_result(&foo, 3), Ok(55));
    assert_eq!(simple_result_err(&foo, 3), Err(-1));
}

#[test]
fn benchmark_packets() {
    let packets = test_packets();
    assert_eq!(packets.len(), 32);
    for i in 0..32 {
        let p = packets.get(i).unwrap();
        assert!(p.iter().all(|b| *b as usize == i));
    }
}

struct EchoDomain {
    calls: u64,
}

// The domain is not verified: its call is described by a relation that
// allows anything.
impl DomA for EchoDomain {
    fn tx_submitted(
        &self,
        _packets: Seq<[u8; 100]>,
        _reap: Seq<[u8; 100]>,
        _after: Self,
        _n: usize,
        _packets_out: Seq<[u8; 100]>,
        _reap_out: Seq<[u8; 100]>,
    ) -> bool {
        true
    }

    fn tx_submit_and_poll(
        &mut self,
        mut packets: RRefDeque<[u8; 100], 32>,
        mut reap: RRefDeque<[u8; 100], 32>,
    ) -> (usize, RRefDeque<[u8; 100], 32>, RRefDeque<[u8; 100], 32>) {
        self.calls += 1;
        let mut n = 0;
        while let Some(p) = packets.pop_front() {
            reap.push_back(p);
            n += 1;
        }
        (n, packets, reap)
    }
}

#[test]
fn benchmark_rounds_swap_the_queues() {
    let mut dom = EchoDomain { calls: 0 };
    // one round: the packets come back reaped, and become the next packets
    let (packets, reap) = submit_and_poll_rounds(&mut dom, test_packets(), RRefDeque::default(), 1);
    assert_eq!(dom.calls, 1);
    assert_eq!(packets.len(), 32);
    assert_eq!(reap.len(), 0);
    assert_eq!(packets.get(5).map(|p| p[0]), Some(5));

    let (packets, reap) = submit_and_poll_rounds(&mut dom, packets, reap, 3);
    assert_eq!(dom.calls, 4);
    assert_eq!((packets.len(), reap.len()), (32, 0));

    let (packets, reap) = submit_and_poll_rounds(&mut dom, packets, reap, 0);
    assert_eq!(dom.calls, 4);
    assert_eq!((packets.len(), reap.len()), (32, 0));
}

#[test]
fn foo_id() {
    assert_eq!(Foo::new(7).get_id(), 7);
}
