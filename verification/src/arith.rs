use crate::convert::ExactInto;
use crate::units::{Bytes, Pages, Words};
use vstd::prelude::*;

verus! {

// Each unit type supports `+`, `-`, `*` and `/` with a right-hand operand of
// any type that converts exactly into it; the right-hand operand is aligned
// with the left-hand unit first, and the result keeps the left-hand unit.
// The contracts rule out overflow, underflow and division by zero, so the
// operators never fault and never wrap.
impl<T: ExactInto<Bytes>> core::ops::Add<T> for Bytes {
    type Output = Bytes;

    fn add(self, rhs: T) -> (r: Bytes) {
        Bytes(self.0 + rhs.exact_into().0)
    }
}

impl<T: ExactInto<Bytes>> vstd::std_specs::ops::AddSpecImpl<T> for Bytes {
    open spec fn obeys_add_spec() -> bool {
        true
    }

    open spec fn add_req(self, rhs: T) -> bool {
        rhs.exact_fits() && self.0 + rhs.exact_spec().0 <= usize::MAX
    }

    open spec fn add_spec(self, rhs: T) -> Bytes {
        Bytes((self.0 + rhs.exact_spec().0) as usize)
    }
}

impl<T: ExactInto<Bytes>> core::ops::Sub<T> for Bytes {
    type Output = Bytes;

    fn sub(self, rhs: T) -> (r: Bytes) {
        Bytes(self.0 - rhs.exact_into().0)
    }
}

impl<T: ExactInto<Bytes>> vstd::std_specs::ops::SubSpecImpl<T> for Bytes {
    open spec fn obeys_sub_spec() -> bool {
        true
    }

    open spec fn sub_req(self, rhs: T) -> bool {
        rhs.exact_fits() && rhs.exact_spec().0 <= self.0
    }

    open spec fn sub_spec(self, rhs: T) -> Bytes {
        Bytes((self.0 - rhs.exact_spec().0) as usize)
    }
}

impl<T: ExactInto<Bytes>> core::ops::Mul<T> for Bytes {
    type Output = Bytes;

    fn mul(self, rhs: T) -> (r: Bytes) {
        Bytes(self.0 * rhs.exact_into().0)
    }
}

impl<T: ExactInto<Bytes>> vstd::std_specs::ops::MulSpecImpl<T> for Bytes {
    open spec fn obeys_mul_spec() -> bool {
        true
    }

    open spec fn mul_req(self, rhs: T) -> bool {
        rhs.exact_fits() && self.0 * rhs.exact_spec().0 <= usize::MAX
    }

    open spec fn mul_spec(self, rhs: T) -> Bytes {
        Bytes((self.0 * rhs.exact_spec().0) as usize)
    }
}

impl<T: ExactInto<Bytes>> core::ops::Div<T> for Bytes {
    type Output = Bytes;

    fn div(self, rhs: T) -> (r: Bytes) {
        Bytes(self.0 / rhs.exact_into().0)
    }
}

impl<T: ExactInto<Bytes>> vstd::std_specs::ops::DivSpecImpl<T> for Bytes {
    open spec fn obeys_div_spec() -> bool {
        true
    }

    open spec fn div_req(self, rhs: T) -> bool {
        rhs.exact_fits() && rhs.exact_spec().0 != 0
    }

    open spec fn div_spec(self, rhs: T) -> Bytes {
        Bytes((self.0 / rhs.exact_spec().0) as usize)
    }
}

impl<T: ExactInto<Words>> core::ops::Add<T> for Words {
    type Output = Words;

    fn add(self, rhs: T) -> (r: Words) {
        Words(self.0 + rhs.exact_into().0)
    }
}

impl<T: ExactInto<Words>> vstd::std_specs::ops::AddSpecImpl<T> for Words {
    open spec fn obeys_add_spec() -> bool {
        true
    }

    open spec fn add_req(self, rhs: T) -> bool {
        rhs.exact_fits() && self.0 + rhs.exact_spec().0 <= usize::MAX
    }

    open spec fn add_spec(self, rhs: T) -> Words {
        Words((self.0 + rhs.exact_spec().0) as usize)
    }
}

impl<T: ExactInto<Words>> core::ops::Sub<T> for Words {
    type Output = Words;

    fn sub(self, rhs: T) -> (r: Words) {
        Words(self.0 - rhs.exact_into().0)
    }
}

impl<T: ExactInto<Words>> vstd::std_specs::ops::SubSpecImpl<T> for Words {
    open spec fn obeys_sub_spec() -> bool {
        true
    }

    open spec fn sub_req(self, rhs: T) -> bool {
        rhs.exact_fits() && rhs.exact_spec().0 <= self.0
    }

    open spec fn sub_spec(self, rhs: T) -> Words {
        Words((self.0 - rhs.exact_spec().0) as usize)
    }
}

impl<T: ExactInto<Words>> core::ops::Mul<T> for Words {
    type Output = Words;

    fn mul(self, rhs: T) -> (r: Words) {
        Words(self.0 * rhs.exact_into().0)
    }
}

impl<T: ExactInto<Words>> vstd::std_specs::ops::MulSpecImpl<T> for Words {
    open spec fn obeys_mul_spec() -> bool {
        true
    }

    open spec fn mul_req(self, rhs: T) -> bool {
        rhs.exact_fits() && self.0 * rhs.exact_spec().0 <= usize::MAX
    }

    open spec fn mul_spec(self, rhs: T) -> Words {
        Words((self.0 * rhs.exact_spec().0) as usize)
    }
}

impl<T: ExactInto<Words>> core::ops::Div<T> for Words {
    type Output = Words;

    fn div(self, rhs: T) -> (r: Words) {
        Words(self.0 / rhs.exact_into().0)
    }
}

impl<T: ExactInto<Words>> vstd::std_specs::ops::DivSpecImpl<T> for Words {
    open spec fn obeys_div_spec() -> bool {
        true
    }

    open spec fn div_req(self, rhs: T) -> bool {
        rhs.exact_fits() && rhs.exact_spec().0 != 0
    }

    open spec fn div_spec(self, rhs: T) -> Words {
        Words((self.0 / rhs.exact_spec().0) as usize)
    }
}

impl<T: ExactInto<Pages>> core::ops::Add<T> for Pages {
    type Output = Pages;

    fn add(self, rhs: T) -> (r: Pages) {
        Pages(self.0 + rhs.exact_into().0)
    }
}

impl<T: ExactInto<Pages>> vstd::std_specs::ops::AddSpecImpl<T> for Pages {
    open spec fn obeys_add_spec() -> bool {
        true
    }

    open spec fn add_req(self, rhs: T) -> bool {
        rhs.exact_fits() && self.0 + rhs.exact_spec().0 <= usize::MAX
    }

    open spec fn add_spec(self, rhs: T) -> Pages {
        Pages((self.0 + rhs.exact_spec().0) as usize)
    }
}

impl<T: ExactInto<Pages>> core::ops::Sub<T> for Pages {
    type Output = Pages;

    fn sub(self, rhs: T) -> (r: Pages) {
        Pages(self.0 - rhs.exact_into().0)
    }
}

impl<T: ExactInto<Pages>> vstd::std_specs::ops::SubSpecImpl<T> for Pages {
    open spec fn obeys_sub_spec() -> bool {
        true
    }

    open spec fn sub_req(self, rhs: T) -> bool {
        rhs.exact_fits() && rhs.exact_spec().0 <= self.0
    }

    open spec fn sub_spec(self, rhs: T) -> Pages {
        Pages((self.0 - rhs.exact_spec().0) as usize)
    }
}

impl<T: ExactInto<Pages>> core::ops::Mul<T> for Pages {
    type Output = Pages;

    fn mul(self, rhs: T) -> (r: Pages) {
        Pages(self.0 * rhs.exact_into().0)
    }
}

impl<T: ExactInto<Pages>> vstd::std_specs::ops::MulSpecImpl<T> for Pages {
    open spec fn obeys_mul_spec() -> bool {
        true
    }

    open spec fn mul_req(self, rhs: T) -> bool {
        rhs.exact_fits() && self.0 * rhs.exact_spec().0 <= usize::MAX
    }

    open spec fn mul_spec(self, rhs: T) -> Pages {
        Pages((self.0 * rhs.exact_spec().0) as usize)
    }
}

impl<T: ExactInto<Pages>> core::ops::Div<T> for Pages {
    type Output = Pages;

    fn div(self, rhs: T) -> (r: Pages) {
        Pages(self.0 / rhs.exact_into().0)
    }
}

impl<T: ExactInto<Pages>> vstd::std_specs::ops::DivSpecImpl<T> for Pages {
    open spec fn obeys_div_spec() -> bool {
        true
    }

    open spec fn div_req(self, rhs: T) -> bool {
        rhs.exact_fits() && rhs.exact_spec().0 != 0
    }

    open spec fn div_spec(self, rhs: T) -> Pages {
        Pages((self.0 / rhs.exact_spec().0) as usize)
    }
}

} // verus!
