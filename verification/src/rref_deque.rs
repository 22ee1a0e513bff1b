use vstd::prelude::*;

use crate::rref::RRef;

verus! {

/// The slot that lies `k` places after slot `tail` in a ring of `n` slots
/// (for `tail < n` and `k <= n`).
pub open spec fn ring(tail: int, k: int, n: int) -> int {
    if tail + k < n {
        tail + k
    } else {
        tail + k - n
    }
}

/// The value held by an occupied slot.
pub open spec fn slot_value<T>(slot: Option<RRef<T>>) -> T {
    match slot {
        Some(r) => r@,
        None => arbitrary(),
    }
}

/// What a deque of capacity `cap` holds after a push at the back of `s`:
/// the value is added when there is room, and refused otherwise.
pub open spec fn pushed<T>(s: Seq<T>, cap: nat, v: T) -> Seq<T> {
    if s.len() < cap {
        s.push(v)
    } else {
        s
    }
}

/// What a deque holds after a pop at the front of `s`.
pub open spec fn popped<T>(s: Seq<T>) -> Seq<T> {
    if s.len() == 0 {
        s
    } else {
        s.drop_first()
    }
}

/// A double-ended queue of at most `N` references, kept in a ring of `N` slots.
///
/// Values are pushed at the back and popped at the front; a push on a full
/// queue is refused and hands the reference back.
pub struct RRefDeque<T, const N: usize> {
    arr: [Option<RRef<T>>; N],
    /// The slot the next push writes.
    head: usize,
    /// The slot the next pop reads.
    tail: usize,
    count: usize,
}

/// The values held by the `count` slots from `tail` on, in that order.
pub open spec fn ring_view<T, const N: usize>(arr: [Option<RRef<T>>; N], tail: usize, count: usize) -> Seq<T> {
    Seq::new(count as nat, |k: int| slot_value(arr@[ring(tail as int, k, N as int)]))
}

/// The ring is consistent: the `count` slots from `tail` on are occupied,
/// the others are empty, and `head` follows the last occupied slot.
pub open spec fn ring_wf<T, const N: usize>(
    arr: [Option<RRef<T>>; N],
    head: usize,
    tail: usize,
    count: usize,
) -> bool {
    &&& count <= N
    &&& N == 0 ==> count == 0 && head == 0 && tail == 0
    &&& N > 0 ==> head < N && tail < N
    &&& N > 0 ==> head == ring(tail as int, count as int, N as int)
    &&& forall|k: int|
        0 <= k < N ==> (#[trigger] arr@[ring(tail as int, k, N as int)] is Some <==> k < count)
}

/// Stores `value` in the slot after the last occupied one.
fn ring_push<T, const N: usize>(
    arr: &mut [Option<RRef<T>>; N],
    head: &mut usize,
    count: &mut usize,
    tail: usize,
    value: RRef<T>,
)
    requires
        ring_wf(*old(arr), *old(head), tail, *old(count)),
        *old(count) < N,
    ensures
        ring_wf(*final(arr), *final(head), tail, *final(count)),
        ring_view(*final(arr), tail, *final(count)) == ring_view(*old(arr), tail, *old(count)).push(
            value@,
        ),
    no_unwind
{
    let ghost old_view = ring_view(*arr, tail, *count);
    let h = *head;
    arr[h] = Some(value);
    *head = if h + 1 == N { 0 } else { h + 1 };
    *count = *count + 1;
    proof {
        assert forall|k: int|
            0 <= k < N implies (#[trigger] arr@[ring(tail as int, k, N as int)] is Some
            <==> k < *count) by {
            if k != *count - 1 {
                assert(ring(tail as int, k, N as int) != h);
            }
        }
        assert(ring_view(*arr, tail, *count) =~= old_view.push(value@)) by {
            assert forall|k: int| 0 <= k < old_view.len() implies ring_view(*arr, tail, *count)[k]
                == old_view[k] by {
                assert(ring(tail as int, k, N as int) != h);
            }
        }
    }
}

/// Takes the value out of the first occupied slot.
fn ring_pop<T, const N: usize>(
    arr: &mut [Option<RRef<T>>; N],
    tail: &mut usize,
    count: &mut usize,
    head: usize,
) -> (r: Option<RRef<T>>)
    requires
        ring_wf(*old(arr), head, *old(tail), *old(count)),
        *old(count) > 0,
    ensures
        ring_wf(*final(arr), head, *final(tail), *final(count)),
        ring_view(*final(arr), *final(tail), *final(count)) == ring_view(
            *old(arr),
            *old(tail),
            *old(count),
        ).drop_first(),
        r is Some,
        r->0@ == ring_view(*old(arr), *old(tail), *old(count))[0],
    no_unwind
{
    let ghost old_view = ring_view(*arr, *tail, *count);
    let t = *tail;
    assert(arr@[ring(t as int, 0, N as int)] is Some);
    let mut r: Option<RRef<T>> = None;
    core::mem::swap(&mut r, &mut arr[t]);
    *tail = if t + 1 == N { 0 } else { t + 1 };
    *count = *count - 1;
    proof {
        assert forall|k: int|
            0 <= k < N implies (#[trigger] arr@[ring(*tail as int, k, N as int)] is Some
            <==> k < *count) by {
            if k < N - 1 {
                assert(ring(*tail as int, k, N as int) == ring(t as int, k + 1, N as int));
                assert(ring(t as int, k + 1, N as int) != t);
            } else {
                assert(ring(*tail as int, k, N as int) == t);
            }
        }
        assert(ring_view(*arr, *tail, *count) =~= old_view.drop_first()) by {
            assert forall|k: int| 0 <= k < ring_view(*arr, *tail, *count).len() implies ring_view(
                *arr,
                *tail,
                *count,
            )[k] == old_view[k + 1] by {
                assert(ring(*tail as int, k, N as int) == ring(t as int, k + 1, N as int));
                assert(ring(t as int, k + 1, N as int) != t);
            }
        }
    }
    r
}

/// Mutable access to the value held by the occupied slot `idx`; the slot
/// stays occupied, by what is written through the result.
fn slot_mut<T, const N: usize>(arr: &mut [Option<RRef<T>>; N], idx: usize) -> (r: &mut T)
    requires
        idx < N,
        old(arr)@[idx as int] is Some,
    ensures
        *r == slot_value(old(arr)@[idx as int]),
        final(arr)@.len() == N,
        final(arr)@[idx as int] is Some,
        slot_value(final(arr)@[idx as int]) == *final(r),
        forall|j: int| 0 <= j < N && j != idx ==> final(arr)@[j] == old(arr)@[j],
    no_unwind
{
    match &mut arr[idx] {
        Some(r) => r.borrow_mut(),
        None => vstd::pervasive::unreached(),
    }
}

impl<T, const N: usize> View for RRefDeque<T, N> {
    type V = Seq<T>;

    /// The values in the queue, from front to back.
    closed spec fn view(&self) -> Seq<T> {
        ring_view(self.arr, self.tail, self.count)
    }
}

impl<T, const N: usize> RRefDeque<T, N> {
    #[verifier::type_invariant]
    spec fn wf(&self) -> bool {
        ring_wf(self.arr, self.head, self.tail, self.count)
    }

    /// Makes an empty queue that keeps its values in `arr`; whatever `arr`
    /// held before is dropped.
    pub fn new(arr: [Option<RRef<T>>; N]) -> (d: Self)
        ensures
            d@ == Seq::<T>::empty(),
    {
        let mut arr = arr;
        let mut i: usize = 0;
        while i < N
            invariant
                i <= N,
                forall|j: int| 0 <= j < i ==> (#[trigger] arr@[j]) is None,
            decreases N - i,
        {
            arr[i] = None;
            i = i + 1;
        }
        let d = RRefDeque { arr, head: 0, tail: 0, count: 0 };
        assert(d@ =~= Seq::<T>::empty());
        d
    }

    /// The number of values in the queue, which is at most its capacity.
    pub fn len(&self) -> (n: usize)
        ensures
            n == self@.len(),
            n <= N,
    {
        proof {
            use_type_invariant(self);
        }
        self.count
    }

    /// Pushes `value` at the back. Returns `None` when it was added, and
    /// `Some(value)` when the queue was full and refused it.
    pub fn push_back(&mut self, value: RRef<T>) -> (r: Option<RRef<T>>)
        ensures
            final(self)@ == pushed(old(self)@, N as nat, value@),
            old(self)@.len() <= N,
            final(self)@.len() <= N,
            old(self)@.len() < N ==> r is None,
            old(self)@.len() == N ==> r == Some(value),
    {
        proof {
            use_type_invariant(&*self);
        }
        if self.count == N {
            return Some(value);
        }
        let t = self.tail;
        ring_push(&mut self.arr, &mut self.head, &mut self.count, t, value);
        None
    }

    /// Pops the value at the front, or returns `None` when the queue is empty.
    pub fn pop_front(&mut self) -> (r: Option<RRef<T>>)
        ensures
            final(self)@ == popped(old(self)@),
            old(self)@.len() <= N,
            final(self)@.len() <= N,
            old(self)@.len() == 0 <==> r is None,
            r is Some ==> r->0@ == old(self)@[0],
    {
        proof {
            use_type_invariant(&*self);
        }
        if self.count == 0 {
            return None;
        }
        let h = self.head;
        ring_pop(&mut self.arr, &mut self.tail, &mut self.count, h)
    }

    /// The value `i` places from the front, or `None` when `i` is not below
    /// the length.
    pub fn get(&self, i: usize) -> (r: Option<&T>)
        ensures
            self@.len() <= N,
            i < self@.len() ==> r == Some(&self@[i as int]),
            i >= self@.len() ==> r is None,
    {
        proof {
            use_type_invariant(self);
        }
        if i >= self.count {
            return None;
        }
        let idx = if i < N - self.tail { self.tail + i } else { i - (N - self.tail) };
        assert(idx == ring(self.tail as int, i as int, N as int));
        assert(self.arr@[idx as int] is Some);
        match &self.arr[idx] {
            Some(r) => Some(r.borrow()),
            None => None,
        }
    }

    /// Mutable access to the value `i` places from the front, or `None` when
    /// `i` is not below the length. A write through the result replaces that
    /// value and leaves the others and the length as they were.
    pub fn get_mut(&mut self, i: usize) -> (r: Option<&mut T>)
        ensures
            i < old(self)@.len() ==> r is Some && *r.unwrap() == old(self)@[i as int]
                && final(self)@ == old(self)@.update(i as int, *final(r.unwrap())),
            i >= old(self)@.len() ==> r is None && final(self)@ == old(self)@,
            old(self)@.len() <= N,
            final(self)@.len() <= N,
    {
        proof {
            use_type_invariant(&*self);
        }
        if i >= self.count {
            return None;
        }
        let idx = if i < N - self.tail { self.tail + i } else { i - (N - self.tail) };
        assert(idx == ring(self.tail as int, i as int, N as int));
        assert(self.arr@[idx as int] is Some);
        Some(slot_mut(&mut self.arr, idx))
    }
}


/// An array of `N` slots from `Default`, for a queue's storage. Nothing is
/// claimed of what the slots hold: the queue empties them.
#[verifier::external_body]
fn default_slots<T, const N: usize>() -> [Option<RRef<T>>; N] where
    [Option<RRef<T>>; N]: Default,
 {
    Default::default()
}

impl<T, const N: usize> Default for RRefDeque<T, N> where [Option<RRef<T>>; N]: Default {
    fn default() -> (d: Self)
        ensures
            d@ == Seq::<T>::empty(),
    {
        Self::new(default_slots())
    }
}

/// What a deque of capacity `cap` holding `s` holds after `xs` were pushed
/// at its back one after the other.
pub open spec fn pushed_all<T>(s: Seq<T>, cap: nat, xs: Seq<T>) -> Seq<T>
    decreases xs.len(),
{
    if xs.len() == 0 {
        s
    } else {
        pushed_all(pushed(s, cap, xs[0]), cap, xs.drop_first())
    }
}

/// First in, first out: values pushed one after the other into a queue with
/// room for them all stand behind its old contents in the order they were
/// pushed, so the pops return them in that order.
pub proof fn lemma_fifo<T>(s: Seq<T>, cap: nat, xs: Seq<T>)
    requires
        s.len() + xs.len() <= cap,
    ensures
        pushed_all(s, cap, xs) == s + xs,
    decreases xs.len(),
{
    if xs.len() > 0 {
        lemma_fifo(s.push(xs[0]), cap, xs.drop_first());
        assert(s.push(xs[0]) + xs.drop_first() =~= s + xs);
    } else {
        assert(s + xs =~= s);
    }
}

/// Queue law: pushing at the back of a non-empty queue that has room, then
/// popping at the front, gives what popping first and pushing second gives.
pub proof fn lemma_push_pop_commute<T>(s: Seq<T>, cap: nat, v: T)
    requires
        0 < s.len() < cap,
    ensures
        popped(pushed(s, cap, v)) == pushed(popped(s), cap, v),
{
    assert(popped(pushed(s, cap, v)) =~= pushed(popped(s), cap, v));
}

/// Queue law: a value pushed onto an empty queue of non-zero capacity is the
/// value the next pop returns, and the queue is empty again afterwards.
pub proof fn lemma_push_then_pop_empty<T>(cap: nat, v: T)
    requires
        cap > 0,
    ensures
        pushed(Seq::<T>::empty(), cap, v)[0] == v,
        popped(pushed(Seq::<T>::empty(), cap, v)) == Seq::<T>::empty(),
{
    assert(popped(pushed(Seq::<T>::empty(), cap, v)) =~= Seq::<T>::empty());
}

/// Queue law: the front of the queue stays the front while values are pushed
/// behind it.
pub proof fn lemma_push_keeps_front<T>(s: Seq<T>, cap: nat, v: T)
    requires
        s.len() > 0,
    ensures
        pushed(s, cap, v)[0] == s[0],
{
}

/// Capacity law: a queue never holds more than its capacity, and a push on a
/// full queue leaves it unchanged.
pub proof fn lemma_push_bounded<T>(s: Seq<T>, cap: nat, v: T)
    requires
        s.len() <= cap,
    ensures
        pushed(s, cap, v).len() <= cap,
        s.len() == cap ==> pushed(s, cap, v) == s,
        s.len() < cap ==> pushed(s, cap, v).len() == s.len() + 1,
{
}

} // verus!
