use vstd::prelude::*;
use vstd::arithmetic::power::pow;

use crate::rref::RRef;
use crate::rref_deque::RRefDeque;

verus! {

/// Types whose values may be moved between domains inside a reference.
///
/// Plain data is such a type: the primitive types, tuples, arrays and
/// options of such types, references and their queues, and any plain-data
/// type of a user, which states so with an empty impl. Pointers, references
/// and slices are not, and so have no impl.
pub trait RRefable {}

impl RRefable for u8 {}
impl RRefable for u16 {}
impl RRefable for u32 {}
impl RRefable for u64 {}
impl RRefable for usize {}
impl RRefable for i8 {}
impl RRefable for i16 {}
impl RRefable for i32 {}
impl RRefable for i64 {}
impl RRefable for isize {}
impl RRefable for u128 {}
impl RRefable for i128 {}
impl RRefable for bool {}
impl RRefable for char {}
impl RRefable for () {}
impl<A: RRefable> RRefable for (A,) {}
impl<A: RRefable, B: RRefable> RRefable for (A, B) {}
impl<A: RRefable, B: RRefable, C: RRefable> RRefable for (A, B, C) {}
impl<A: RRefable, B: RRefable, C: RRefable, D: RRefable> RRefable for (A, B, C, D) {}
impl<T: RRefable> RRefable for Option<T> {}
impl<T: RRefable, const N: usize> RRefable for [T; N] {}
impl<T: RRefable> RRefable for RRef<T> {}
impl<T: RRefable, const N: usize> RRefable for RRefDeque<T, N> {}

/// The number of values of a 64-bit word.
pub open spec fn word_range() -> int {
    0x1_0000_0000_0000_0000
}

/// `x` reduced to a 64-bit word, as the wrapping operations reduce it.
pub open spec fn word(x: int) -> int {
    x % word_range()
}

/// The identifier of a type built from a type with identifier `inner`:
/// `((inner + offset) ^ exp - sub)` reduced to a 64-bit word.
pub open spec fn derived_type_id(inner: u64, offset: int, exp: nat, sub: int) -> u64 {
    word(pow(inner + offset, exp) - sub) as u64
}

/// A number that identifies a type, the same in every domain.
pub trait TypeIdentifiable {
    /// The identifier of `Self`.
    spec fn type_id_spec() -> u64;

    fn type_id() -> (r: u64)
        ensures
            r == Self::type_id_spec(),
    ;
}

proof fn lemma_word_bounds(x: int)
    ensures
        0 <= word(x) < word_range(),
{
}

/// `base ^ exp` reduced to a 64-bit word, computed with wrapping
/// multiplications.
pub fn wrapping_pow(base: u64, exp: u32) -> (r: u64)
    ensures
        r == word(pow(base as int, exp as nat)),
{
    let mut r: u64 = 1;
    let mut i: u32 = 0;
    proof {
        reveal(pow);
        assert(pow(base as int, 0) == 1);
    }
    while i < exp
        invariant
            i <= exp,
            r == word(pow(base as int, i as nat)),
        decreases exp - i,
    {
        let ghost prev = pow(base as int, i as nat);
        proof {
            reveal(pow);
            vstd::arithmetic::div_mod::lemma_mul_mod_noop_left(prev, base as int, word_range());
            vstd::arithmetic::mul::lemma_mul_is_commutative(prev, base as int);
            assert(pow(base as int, (i + 1) as nat) == base * prev);
        }
        r = r.wrapping_mul(base);
        i = i + 1;
    }
    r
}

/// The identifier of a type built from a type with identifier `inner`,
/// computed as `inner.wrapping_add(offset).wrapping_pow(exp).wrapping_sub(sub)`.
pub fn derive_type_id(inner: u64, offset: u64, exp: u32, sub: u64) -> (r: u64)
    ensures
        r == derived_type_id(inner, offset as int, exp as nat, sub as int),
{
    let a = inner.wrapping_add(offset);
    let p = wrapping_pow(a, exp);
    let r = p.wrapping_sub(sub);
    proof {
        let m = word_range();
        assert(a == word(inner + offset));
        vstd::arithmetic::power::lemma_pow_mod_noop(inner + offset, exp as nat, m);
        assert(p == word(pow(inner + offset, exp as nat)));
        vstd::arithmetic::div_mod::lemma_sub_mod_noop(pow(inner + offset, exp as nat), sub as int, m);
        vstd::arithmetic::div_mod::lemma_small_mod(sub as nat, m as nat);
        vstd::arithmetic::div_mod::lemma_small_mod(p as nat, m as nat);
        lemma_word_bounds(pow(inner + offset, exp as nat) - sub);
    }
    r
}

impl TypeIdentifiable for u8 {
    open spec fn type_id_spec() -> u64 {
        u8::MAX as u64
    }

    fn type_id() -> (r: u64) {
        u8::MAX as u64
    }
}

impl TypeIdentifiable for u16 {
    open spec fn type_id_spec() -> u64 {
        u16::MAX as u64
    }

    fn type_id() -> (r: u64) {
        u16::MAX as u64
    }
}

impl TypeIdentifiable for u32 {
    open spec fn type_id_spec() -> u64 {
        u32::MAX as u64
    }

    fn type_id() -> (r: u64) {
        u32::MAX as u64
    }
}

impl TypeIdentifiable for u64 {
    open spec fn type_id_spec() -> u64 {
        u64::MAX
    }

    fn type_id() -> (r: u64) {
        u64::MAX
    }
}

impl TypeIdentifiable for usize {
    open spec fn type_id_spec() -> u64 {
        usize::MAX as u64
    }

    fn type_id() -> (r: u64) {
        usize::MAX as u64
    }
}

impl TypeIdentifiable for i8 {
    open spec fn type_id_spec() -> u64 {
        i8::MAX as u64
    }

    fn type_id() -> (r: u64) {
        i8::MAX as u64
    }
}

impl TypeIdentifiable for i16 {
    open spec fn type_id_spec() -> u64 {
        i16::MAX as u64
    }

    fn type_id() -> (r: u64) {
        i16::MAX as u64
    }
}

impl TypeIdentifiable for i32 {
    open spec fn type_id_spec() -> u64 {
        i32::MAX as u64
    }

    fn type_id() -> (r: u64) {
        i32::MAX as u64
    }
}

impl TypeIdentifiable for i64 {
    open spec fn type_id_spec() -> u64 {
        i64::MAX as u64
    }

    fn type_id() -> (r: u64) {
        i64::MAX as u64
    }
}

impl TypeIdentifiable for isize {
    open spec fn type_id_spec() -> u64 {
        isize::MAX as u64
    }

    fn type_id() -> (r: u64) {
        isize::MAX as u64
    }
}

impl TypeIdentifiable for bool {
    open spec fn type_id_spec() -> u64 {
        22342342
    }

    fn type_id() -> (r: u64) {
        22342342
    }
}

impl<T: TypeIdentifiable + RRefable> TypeIdentifiable for RRef<T> {
    open spec fn type_id_spec() -> u64 {
        derived_type_id(T::type_id_spec(), 123, 2, 1)
    }

    fn type_id() -> (r: u64) {
        derive_type_id(T::type_id(), 123, 2, 1)
    }
}

impl<T: TypeIdentifiable + RRefable> TypeIdentifiable for Option<T> {
    open spec fn type_id_spec() -> u64 {
        derived_type_id(T::type_id_spec(), 123, 3, 1)
    }

    fn type_id() -> (r: u64) {
        derive_type_id(T::type_id(), 123, 3, 1)
    }
}

impl<T: TypeIdentifiable, const N: usize> TypeIdentifiable for [T; N] {
    open spec fn type_id_spec() -> u64 {
        derived_type_id(T::type_id_spec(), 123, 2, (N as u64) as int)
    }

    fn type_id() -> (r: u64) {
        derive_type_id(T::type_id(), 123, 2, N as u64)
    }
}


/// Identification law: arrays of the same element type and different
/// lengths have different identifiers.
pub proof fn lemma_array_ids_distinct<T: TypeIdentifiable, const N: usize, const M: usize>()
    requires
        N != M,
    ensures
        <[T; N] as TypeIdentifiable>::type_id_spec() != <[T; M] as TypeIdentifiable>::type_id_spec(),
{
    let p = pow(T::type_id_spec() + 123, 2);
    let m = word_range();
    assert((N as u64) as int == N as int);
    assert((M as u64) as int == M as int);
    if word(p - N as int) == word(p - M as int) {
        vstd::arithmetic::div_mod::lemma_fundamental_div_mod(p - N as int, m);
        vstd::arithmetic::div_mod::lemma_fundamental_div_mod(p - M as int, m);
        let qn = (p - N as int) / m;
        let qm = (p - M as int) / m;
        assert(m * qn - m * qm == M as int - N as int);
        vstd::arithmetic::mul::lemma_mul_is_distributive_sub(m, qn, qm);
        if qn - qm >= 1 {
            vstd::arithmetic::mul::lemma_mul_increases(qn - qm, m);
        } else if qn - qm <= -1 {
            vstd::arithmetic::mul::lemma_mul_increases(qm - qn, m);
            vstd::arithmetic::mul::lemma_mul_is_distributive_sub(m, qm, qn);
        }
    }
}

} // verus!
