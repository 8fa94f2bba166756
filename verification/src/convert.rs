use crate::units::{
    lemma_word_size_is_native, native_word_size, word_size, Bytes, Pages, Words, PAGE_SIZE,
};
use vstd::prelude::*;

verus! {

/// The number of whole units of size `d` needed to cover an amount `n`:
/// `n / d` rounded towards positive infinity, computed with the integer
/// ceiling-division idiom.
pub open spec fn div_round_up(n: int, d: int) -> int
    recommends
        0 <= n,
        1 <= d,
{
    (n + (d - 1)) / d
}

/// Returns the minimum number of whole `divisor`-sized units needed to fit
/// `n`. This is the single rounding primitive shared by every rounding
/// conversion in the crate.
pub fn round_up_to(n: usize, divisor: usize) -> (r: usize)
    requires
        1 <= divisor,
        n + divisor - 1 <= usize::MAX,
    ensures
        r == div_round_up(n as int, divisor as int),
{
    (n + (divisor - 1)) / divisor
}

/// An exact, loss-free conversion from one memory unit into another.
///
/// The conversion is defined only in the directions where the amount of
/// space can be represented exactly in the target unit: pages to bytes,
/// words to bytes, pages to words, and every unit to itself. The arithmetic
/// operators use it to align their right-hand operand with the unit of the
/// left-hand one, so that arithmetic never silently rounds an input.
pub trait ExactInto<U>: Sized {
    /// Whether the converted amount is representable in `usize`.
    spec fn exact_fits(self) -> bool;

    /// The amount of space occupied by `self`, measured in `U`.
    spec fn exact_spec(self) -> U
        recommends
            self.exact_fits(),
    ;

    /// Converts `self` into the same amount of space measured in `U`.
    fn exact_into(self) -> (r: U)
        requires
            self.exact_fits(),
        ensures
            r == self.exact_spec(),
    ;
}

impl<T> ExactInto<T> for T {
    open spec fn exact_fits(self) -> bool {
        true
    }

    open spec fn exact_spec(self) -> T {
        self
    }

    fn exact_into(self) -> (r: T) {
        self
    }
}

impl ExactInto<Bytes> for Words {
    open spec fn exact_fits(self) -> bool {
        self.0 * word_size() <= usize::MAX
    }

    open spec fn exact_spec(self) -> Bytes {
        Bytes((self.0 * word_size()) as usize)
    }

    fn exact_into(self) -> (r: Bytes) {
        let w: usize = native_word_size();
        Bytes(self.0 * w)
    }
}

impl ExactInto<Bytes> for Pages {
    open spec fn exact_fits(self) -> bool {
        self.0 * PAGE_SIZE <= usize::MAX
    }

    open spec fn exact_spec(self) -> Bytes {
        Bytes((self.0 * PAGE_SIZE) as usize)
    }

    fn exact_into(self) -> (r: Bytes) {
        Bytes(self.0 * PAGE_SIZE)
    }
}

impl ExactInto<Words> for Pages {
    open spec fn exact_fits(self) -> bool {
        self.0 * PAGE_SIZE <= usize::MAX
    }

    open spec fn exact_spec(self) -> Words {
        Words((self.0 * PAGE_SIZE / word_size()) as usize)
    }

    fn exact_into(self) -> (r: Words) {
        proof {
            lemma_word_size_is_native();
        }
        let w: usize = native_word_size();
        Words(self.0 * PAGE_SIZE / w)
    }
}

/// A rounding conversion between memory units.
///
/// Defined in the directions where the target unit may not evenly divide the
/// source amount: bytes to words, bytes to pages, and words to pages. The
/// result is the least number of whole target units that covers the source
/// amount, so it may stand for more space than the input did. The caller
/// must request this conversion explicitly; it is never applied implicitly.
pub trait RoundUpTo<T>: Sized {
    /// Whether rounding `self` up can be computed without exceeding `usize`.
    spec fn round_up_fits(self) -> bool;

    /// The least amount measured in `T` that covers `self`.
    spec fn round_up_spec(self) -> T
        recommends
            self.round_up_fits(),
    ;

    /// Returns minimum number of `T` to fit amount of space occupied by
    /// `self`.
    fn round_up_to(self) -> (r: T)
        requires
            self.round_up_fits(),
        ensures
            r == self.round_up_spec(),
    ;
}

impl RoundUpTo<Words> for Bytes {
    open spec fn round_up_fits(self) -> bool {
        self.0 + word_size() - 1 <= usize::MAX
    }

    open spec fn round_up_spec(self) -> Words {
        Words(div_round_up(self.0 as int, word_size()) as usize)
    }

    fn round_up_to(self) -> (r: Words) {
        proof {
            lemma_word_size_is_native();
        }
        let w: usize = native_word_size();
        Words(round_up_to(self.0, w))
    }
}

impl RoundUpTo<Pages> for Bytes {
    open spec fn round_up_fits(self) -> bool {
        self.0 + PAGE_SIZE - 1 <= usize::MAX
    }

    open spec fn round_up_spec(self) -> Pages {
        Pages(div_round_up(self.0 as int, PAGE_SIZE as int) as usize)
    }

    fn round_up_to(self) -> (r: Pages) {
        Pages(round_up_to(self.0, PAGE_SIZE))
    }
}

impl RoundUpTo<Pages> for Words {
    open spec fn round_up_fits(self) -> bool {
        self.0 * word_size() + PAGE_SIZE - 1 <= usize::MAX
    }

    open spec fn round_up_spec(self) -> Pages {
        Pages(div_round_up(self.0 * word_size(), PAGE_SIZE as int) as usize)
    }

    fn round_up_to(self) -> (r: Pages) {
        let bytes: Bytes = self.exact_into();
        bytes.round_up_to()
    }
}

} // verus!
