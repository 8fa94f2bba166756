use crate::convert::{div_round_up, ExactInto, RoundUpTo};
use crate::units::{lemma_word_size_is_native, word_size, Bytes, Pages, Words, PAGE_SIZE};
use vstd::arithmetic::div_mod::{
    lemma_div_multiples_vanish, lemma_fundamental_div_mod, lemma_fundamental_div_mod_converse,
    lemma_mod_multiples_basic,
};
use vstd::prelude::*;

verus! {

/// `div_round_up` computes the ceiling of `n / d`: it agrees with plain
/// division when `d` divides `n` evenly and returns one more unit otherwise.
/// Equivalently, `div_round_up(n, d)` units of size `d` are enough to cover
/// `n`, and one unit fewer would not be.
pub proof fn lemma_div_round_up_is_ceil(n: int, d: int)
    requires
        0 <= n,
        1 <= d,
    ensures
        div_round_up(n, d) == if n % d == 0 {
            n / d
        } else {
            n / d + 1
        },
        n <= d * div_round_up(n, d),
        d * div_round_up(n, d) < n + d,
{
    let q = n / d;
    let r = n % d;
    lemma_fundamental_div_mod(n, d);
    if r == 0 {
        lemma_fundamental_div_mod_converse(n + d - 1, d, q, d - 1);
    } else {
        assert((q + 1) * d == q * d + d) by (nonlinear_arith);
        lemma_fundamental_div_mod_converse(n + d - 1, d, q + 1, r - 1);
        assert(d * (q + 1) == d * q + d) by (nonlinear_arith);
    }
}

/// Rounding an amount of zero up to units of any size yields zero units.
pub proof fn lemma_round_up_zero(d: int)
    requires
        1 <= d,
    ensures
        div_round_up(0, d) == 0,
{
    lemma_fundamental_div_mod_converse(d - 1, d, 0, d - 1);
}

/// Zero bytes and zero words round up to zero of every coarser unit.
pub proof fn lemma_zero_rounds_up_to_zero()
    ensures
        <Bytes as RoundUpTo<Words>>::round_up_spec(Bytes(0)) == Words(0),
        <Bytes as RoundUpTo<Pages>>::round_up_spec(Bytes(0)) == Pages(0),
        <Words as RoundUpTo<Pages>>::round_up_spec(Words(0)) == Pages(0),
{
    lemma_word_size_is_native();
    lemma_round_up_zero(word_size());
    lemma_round_up_zero(PAGE_SIZE as int);
}

/// The exact conversion of `n` pages into bytes produces `n * PAGE_SIZE`
/// bytes: no information is lost in the direction from pages to bytes.
pub proof fn lemma_pages_to_bytes_exact(n: usize)
    requires
        n * PAGE_SIZE <= usize::MAX,
    ensures
        <Pages as ExactInto<Bytes>>::exact_spec(Pages(n)) == Bytes((n * PAGE_SIZE) as usize),
{
}

/// Converting a page count to bytes and rounding the bytes back up to pages
/// returns the original page count: a whole number of pages needs no
/// rounding.
pub proof fn lemma_pages_round_trip(n: usize)
    requires
        n * PAGE_SIZE <= usize::MAX,
    ensures
        <Bytes as RoundUpTo<Pages>>::round_up_spec(
            <Pages as ExactInto<Bytes>>::exact_spec(Pages(n)),
        ) == Pages(n),
{
    let b = n * PAGE_SIZE;
    lemma_mod_multiples_basic(n as int, PAGE_SIZE as int);
    lemma_div_round_up_is_ceil(b as int, PAGE_SIZE as int);
    lemma_div_multiples_vanish(n as int, PAGE_SIZE as int);
}

/// The exact conversions commute: turning pages into words and those words
/// into bytes gives the same byte count as turning the pages into bytes
/// directly. The step through words loses nothing because a page is a whole
/// number of machine words.
pub proof fn lemma_pages_to_words_is_exact(n: usize)
    requires
        n * PAGE_SIZE <= usize::MAX,
    ensures
        <Words as ExactInto<Bytes>>::exact_spec(
            <Pages as ExactInto<Words>>::exact_spec(Pages(n)),
        ) == <Pages as ExactInto<Bytes>>::exact_spec(Pages(n)),
{
    lemma_word_size_is_native();
    let b = n * PAGE_SIZE;
    let w = word_size();
    if w == 4 {
        assert(n * 1024 * 4 == n * 4096);
    } else {
        assert(n * 512 * 8 == n * 4096);
    }
    assert(b == (n * (PAGE_SIZE as int / w)) * w);
    lemma_mod_multiples_basic(n * (PAGE_SIZE as int / w), w);
    lemma_fundamental_div_mod(b as int, w);
}

/// Rounding a byte count up to words yields the ceiling of
/// `bytes / word_size()`.
pub proof fn lemma_round_up_to_words_is_ceil(b: Bytes)
    ensures
        (<Bytes as RoundUpTo<Words>>::round_up_spec(b)).0 == if b.0 as int % word_size() == 0 {
            b.0 as int / word_size()
        } else {
            b.0 as int / word_size() + 1
        },
{
    lemma_word_size_is_native();
    lemma_div_round_up_is_ceil(b.0 as int, word_size());
}

/// Same-unit arithmetic works on the wrapped integers. Addition adds them
/// and is permitted exactly when the sum is representable; subtraction
/// subtracts them and is permitted exactly when it cannot underflow;
/// multiplication multiplies them and is permitted exactly when the product
/// is representable; division divides them and is permitted exactly when
/// the divisor is not zero.
pub proof fn lemma_same_unit_arithmetic(a: usize, b: usize)
    ensures
        <Bytes as vstd::std_specs::ops::AddSpec<Bytes>>::add_req(Bytes(a), Bytes(b)) <==> a + b
            <= usize::MAX,
        a + b <= usize::MAX ==> <Bytes as vstd::std_specs::ops::AddSpec<Bytes>>::add_spec(
            Bytes(a),
            Bytes(b),
        ) == Bytes((a + b) as usize),
        <Bytes as vstd::std_specs::ops::SubSpec<Bytes>>::sub_req(Bytes(a), Bytes(b)) <==> b <= a,
        b <= a ==> <Bytes as vstd::std_specs::ops::SubSpec<Bytes>>::sub_spec(Bytes(a), Bytes(b))
            == Bytes((a - b) as usize),
        <Bytes as vstd::std_specs::ops::MulSpec<Bytes>>::mul_req(Bytes(a), Bytes(b)) <==> a * b
            <= usize::MAX,
        a * b <= usize::MAX ==> <Bytes as vstd::std_specs::ops::MulSpec<Bytes>>::mul_spec(
            Bytes(a),
            Bytes(b),
        ) == Bytes((a * b) as usize),
        <Bytes as vstd::std_specs::ops::DivSpec<Bytes>>::div_req(Bytes(a), Bytes(b)) <==> b != 0,
        b != 0 ==> <Bytes as vstd::std_specs::ops::DivSpec<Bytes>>::div_spec(Bytes(a), Bytes(b))
            == Bytes((a as int / b as int) as usize),
{
}

/// Addition aligns its right-hand operand with the left-hand unit through
/// the exact conversion, never through a rounding one: the result is the
/// left-hand amount plus exactly the space the right-hand operand occupies.
pub proof fn lemma_add_converts_exactly<T: ExactInto<Bytes>>(a: Bytes, rhs: T)
    requires
        rhs.exact_fits(),
        a.0 + rhs.exact_spec().0 <= usize::MAX,
    ensures
        (<Bytes as vstd::std_specs::ops::AddSpec<T>>::add_spec(a, rhs)).0 == a.0
            + rhs.exact_spec().0,
{
}

} // verus!
