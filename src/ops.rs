use vstd::prelude::*;
use vstd::std_specs::ops::{
    AddSpec, BitAndSpec, BitOrSpec, BitXorSpec, DivSpec, MulSpec, NegSpec, NotSpec, RemSpec, ShlSpec,
    ShrSpec, SubSpec,
};
use core::ops::{
    Add, AddAssign, BitAnd, BitAndAssign, BitOr, BitOrAssign, BitXor, BitXorAssign, Div, DivAssign,
    Mul, MulAssign, Neg, Not, Rem, RemAssign, Shl, ShlAssign, Shr, ShrAssign, Sub, SubAssign,
};
use crate::vec2::Vec2;

verus! {

/// Component-wise sum: `x` with `x`, `y` with `y`.
impl<A: Add<Output = B>, B> Add for Vec2<A> {
    type Output = Vec2<B>;

    fn add(self, rhs: Vec2<A>) -> (r: Vec2<B>)
        ensures
            A::obeys_add_spec() ==> r.x == self.x.add_spec(rhs.x) && r.y == self.y.add_spec(rhs.y),
    {
        Vec2::new(self.x + rhs.x, self.y + rhs.y)
    }
}

impl<A: Add<Output = B>, B> vstd::std_specs::ops::AddSpecImpl for Vec2<A> {
    open spec fn obeys_add_spec() -> bool {
        A::obeys_add_spec()
    }

    open spec fn add_req(self, rhs: Vec2<A>) -> bool {
        self.x.add_req(rhs.x) && self.y.add_req(rhs.y)
    }

    open spec fn add_spec(self, rhs: Vec2<A>) -> Vec2<B> {
        Vec2 { x: self.x.add_spec(rhs.x), y: self.y.add_spec(rhs.y) }
    }
}

/// Component-wise difference: `x` with `x`, `y` with `y`.
impl<A: Sub<Output = B>, B> Sub for Vec2<A> {
    type Output = Vec2<B>;

    fn sub(self, rhs: Vec2<A>) -> (r: Vec2<B>)
        ensures
            A::obeys_sub_spec() ==> r.x == self.x.sub_spec(rhs.x) && r.y == self.y.sub_spec(rhs.y),
    {
        Vec2::new(self.x - rhs.x, self.y - rhs.y)
    }
}

impl<A: Sub<Output = B>, B> vstd::std_specs::ops::SubSpecImpl for Vec2<A> {
    open spec fn obeys_sub_spec() -> bool {
        A::obeys_sub_spec()
    }

    open spec fn sub_req(self, rhs: Vec2<A>) -> bool {
        self.x.sub_req(rhs.x) && self.y.sub_req(rhs.y)
    }

    open spec fn sub_spec(self, rhs: Vec2<A>) -> Vec2<B> {
        Vec2 { x: self.x.sub_spec(rhs.x), y: self.y.sub_spec(rhs.y) }
    }
}

/// Component-wise product: `x` with `x`, `y` with `y`.
impl<A: Mul<Output = B>, B> Mul for Vec2<A> {
    type Output = Vec2<B>;

    fn mul(self, rhs: Vec2<A>) -> (r: Vec2<B>)
        ensures
            A::obeys_mul_spec() ==> r.x == self.x.mul_spec(rhs.x) && r.y == self.y.mul_spec(rhs.y),
    {
        Vec2::new(self.x * rhs.x, self.y * rhs.y)
    }
}

impl<A: Mul<Output = B>, B> vstd::std_specs::ops::MulSpecImpl for Vec2<A> {
    open spec fn obeys_mul_spec() -> bool {
        A::obeys_mul_spec()
    }

    open spec fn mul_req(self, rhs: Vec2<A>) -> bool {
        self.x.mul_req(rhs.x) && self.y.mul_req(rhs.y)
    }

    open spec fn mul_spec(self, rhs: Vec2<A>) -> Vec2<B> {
        Vec2 { x: self.x.mul_spec(rhs.x), y: self.y.mul_spec(rhs.y) }
    }
}

/// Component-wise quotient: `x` with `x`, `y` with `y`.
impl<A: Div<Output = B>, B> Div for Vec2<A> {
    type Output = Vec2<B>;

    fn div(self, rhs: Vec2<A>) -> (r: Vec2<B>)
        ensures
            A::obeys_div_spec() ==> r.x == self.x.div_spec(rhs.x) && r.y == self.y.div_spec(rhs.y),
    {
        Vec2::new(self.x / rhs.x, self.y / rhs.y)
    }
}

impl<A: Div<Output = B>, B> vstd::std_specs::ops::DivSpecImpl for Vec2<A> {
    open spec fn obeys_div_spec() -> bool {
        A::obeys_div_spec()
    }

    open spec fn div_req(self, rhs: Vec2<A>) -> bool {
        self.x.div_req(rhs.x) && self.y.div_req(rhs.y)
    }

    open spec fn div_spec(self, rhs: Vec2<A>) -> Vec2<B> {
        Vec2 { x: self.x.div_spec(rhs.x), y: self.y.div_spec(rhs.y) }
    }
}

/// Component-wise remainder: `x` with `x`, `y` with `y`.
impl<A: Rem<Output = B>, B> Rem for Vec2<A> {
    type Output = Vec2<B>;

    fn rem(self, rhs: Vec2<A>) -> (r: Vec2<B>)
        ensures
            A::obeys_rem_spec() ==> r.x == self.x.rem_spec(rhs.x) && r.y == self.y.rem_spec(rhs.y),
    {
        Vec2::new(self.x % rhs.x, self.y % rhs.y)
    }
}

impl<A: Rem<Output = B>, B> vstd::std_specs::ops::RemSpecImpl for Vec2<A> {
    open spec fn obeys_rem_spec() -> bool {
        A::obeys_rem_spec()
    }

    open spec fn rem_req(self, rhs: Vec2<A>) -> bool {
        self.x.rem_req(rhs.x) && self.y.rem_req(rhs.y)
    }

    open spec fn rem_spec(self, rhs: Vec2<A>) -> Vec2<B> {
        Vec2 { x: self.x.rem_spec(rhs.x), y: self.y.rem_spec(rhs.y) }
    }
}

/// Component-wise bitwise and: `x` with `x`, `y` with `y`.
impl<A: BitAnd<Output = B>, B> BitAnd for Vec2<A> {
    type Output = Vec2<B>;

    fn bitand(self, rhs: Vec2<A>) -> (r: Vec2<B>)
        ensures
            A::obeys_bitand_spec() ==> r.x == self.x.bitand_spec(rhs.x) && r.y == self.y.bitand_spec(rhs.y),
    {
        Vec2::new(self.x & rhs.x, self.y & rhs.y)
    }
}

impl<A: BitAnd<Output = B>, B> vstd::std_specs::ops::BitAndSpecImpl for Vec2<A> {
    open spec fn obeys_bitand_spec() -> bool {
        A::obeys_bitand_spec()
    }

    open spec fn bitand_req(self, rhs: Vec2<A>) -> bool {
        self.x.bitand_req(rhs.x) && self.y.bitand_req(rhs.y)
    }

    open spec fn bitand_spec(self, rhs: Vec2<A>) -> Vec2<B> {
        Vec2 { x: self.x.bitand_spec(rhs.x), y: self.y.bitand_spec(rhs.y) }
    }
}

/// Component-wise bitwise or: `x` with `x`, `y` with `y`.
impl<A: BitOr<Output = B>, B> BitOr for Vec2<A> {
    type Output = Vec2<B>;

    fn bitor(self, rhs: Vec2<A>) -> (r: Vec2<B>)
        ensures
            A::obeys_bitor_spec() ==> r.x == self.x.bitor_spec(rhs.x) && r.y == self.y.bitor_spec(rhs.y),
    {
        Vec2::new(self.x | rhs.x, self.y | rhs.y)
    }
}

impl<A: BitOr<Output = B>, B> vstd::std_specs::ops::BitOrSpecImpl for Vec2<A> {
    open spec fn obeys_bitor_spec() -> bool {
        A::obeys_bitor_spec()
    }

    open spec fn bitor_req(self, rhs: Vec2<A>) -> bool {
        self.x.bitor_req(rhs.x) && self.y.bitor_req(rhs.y)
    }

    open spec fn bitor_spec(self, rhs: Vec2<A>) -> Vec2<B> {
        Vec2 { x: self.x.bitor_spec(rhs.x), y: self.y.bitor_spec(rhs.y) }
    }
}

/// Component-wise bitwise exclusive or: `x` with `x`, `y` with `y`.
impl<A: BitXor<Output = B>, B> BitXor for Vec2<A> {
    type Output = Vec2<B>;

    fn bitxor(self, rhs: Vec2<A>) -> (r: Vec2<B>)
        ensures
            A::obeys_bitxor_spec() ==> r.x == self.x.bitxor_spec(rhs.x) && r.y == self.y.bitxor_spec(rhs.y),
    {
        Vec2::new(self.x ^ rhs.x, self.y ^ rhs.y)
    }
}

impl<A: BitXor<Output = B>, B> vstd::std_specs::ops::BitXorSpecImpl for Vec2<A> {
    open spec fn obeys_bitxor_spec() -> bool {
        A::obeys_bitxor_spec()
    }

    open spec fn bitxor_req(self, rhs: Vec2<A>) -> bool {
        self.x.bitxor_req(rhs.x) && self.y.bitxor_req(rhs.y)
    }

    open spec fn bitxor_spec(self, rhs: Vec2<A>) -> Vec2<B> {
        Vec2 { x: self.x.bitxor_spec(rhs.x), y: self.y.bitxor_spec(rhs.y) }
    }
}

/// Component-wise left shift: `x` with `x`, `y` with `y`.
impl<A: Shl<Output = B>, B> Shl for Vec2<A> {
    type Output = Vec2<B>;

    fn shl(self, rhs: Vec2<A>) -> (r: Vec2<B>)
        ensures
            A::obeys_shl_spec() ==> r.x == self.x.shl_spec(rhs.x) && r.y == self.y.shl_spec(rhs.y),
    {
        Vec2::new(self.x << rhs.x, self.y << rhs.y)
    }
}

impl<A: Shl<Output = B>, B> vstd::std_specs::ops::ShlSpecImpl for Vec2<A> {
    open spec fn obeys_shl_spec() -> bool {
        A::obeys_shl_spec()
    }

    open spec fn shl_req(self, rhs: Vec2<A>) -> bool {
        self.x.shl_req(rhs.x) && self.y.shl_req(rhs.y)
    }

    open spec fn shl_spec(self, rhs: Vec2<A>) -> Vec2<B> {
        Vec2 { x: self.x.shl_spec(rhs.x), y: self.y.shl_spec(rhs.y) }
    }
}

/// Component-wise right shift: `x` with `x`, `y` with `y`.
impl<A: Shr<Output = B>, B> Shr for Vec2<A> {
    type Output = Vec2<B>;

    fn shr(self, rhs: Vec2<A>) -> (r: Vec2<B>)
        ensures
            A::obeys_shr_spec() ==> r.x == self.x.shr_spec(rhs.x) && r.y == self.y.shr_spec(rhs.y),
    {
        Vec2::new(self.x >> rhs.x, self.y >> rhs.y)
    }
}

impl<A: Shr<Output = B>, B> vstd::std_specs::ops::ShrSpecImpl for Vec2<A> {
    open spec fn obeys_shr_spec() -> bool {
        A::obeys_shr_spec()
    }

    open spec fn shr_req(self, rhs: Vec2<A>) -> bool {
        self.x.shr_req(rhs.x) && self.y.shr_req(rhs.y)
    }

    open spec fn shr_spec(self, rhs: Vec2<A>) -> Vec2<B> {
        Vec2 { x: self.x.shr_spec(rhs.x), y: self.y.shr_spec(rhs.y) }
    }
}

/// Component-wise negation.
impl<A: Neg<Output = B>, B> Neg for Vec2<A> {
    type Output = Vec2<B>;

    fn neg(self) -> (r: Vec2<B>)
        ensures
            A::obeys_neg_spec() ==> r.x == self.x.neg_spec() && r.y == self.y.neg_spec(),
    {
        Vec2::new(self.x.neg(), self.y.neg())
    }
}

impl<A: Neg<Output = B>, B> vstd::std_specs::ops::NegSpecImpl for Vec2<A> {
    open spec fn obeys_neg_spec() -> bool {
        A::obeys_neg_spec()
    }

    open spec fn neg_req(self) -> bool {
        self.x.neg_req() && self.y.neg_req()
    }

    open spec fn neg_spec(self) -> Vec2<B> {
        Vec2 { x: self.x.neg_spec(), y: self.y.neg_spec() }
    }
}

/// Component-wise bitwise complement.
impl<A: Not<Output = B>, B> Not for Vec2<A> {
    type Output = Vec2<B>;

    fn not(self) -> (r: Vec2<B>)
        ensures
            A::obeys_not_spec() ==> r.x == self.x.not_spec() && r.y == self.y.not_spec(),
    {
        Vec2::new(self.x.not(), self.y.not())
    }
}

impl<A: Not<Output = B>, B> vstd::std_specs::ops::NotSpecImpl for Vec2<A> {
    open spec fn obeys_not_spec() -> bool {
        A::obeys_not_spec()
    }

    open spec fn not_req(self) -> bool {
        self.x.not_req() && self.y.not_req()
    }

    open spec fn not_spec(self) -> Vec2<B> {
        Vec2 { x: self.x.not_spec(), y: self.y.not_spec() }
    }
}

// The compound forms are written through the binary operator of the same
// kind, so `a op= b` always leaves in `a` exactly what `a op b` returns.

/// In-place sum: the receiver becomes `self + rhs`.
impl<T: Add<Output = T> + Copy> AddAssign for Vec2<T> {
    fn add_assign(&mut self, rhs: Vec2<T>)
        requires
            old(self).add_req(rhs),
        ensures
            call_ensures(<Vec2<T> as Add>::add, (*old(self), rhs), *final(self)),
            T::obeys_add_spec() ==> *final(self) == old(self).add_spec(rhs),
    {
        *self = *self + rhs;
    }
}

/// In-place difference: the receiver becomes `self - rhs`.
impl<T: Sub<Output = T> + Copy> SubAssign for Vec2<T> {
    fn sub_assign(&mut self, rhs: Vec2<T>)
        requires
            old(self).sub_req(rhs),
        ensures
            call_ensures(<Vec2<T> as Sub>::sub, (*old(self), rhs), *final(self)),
            T::obeys_sub_spec() ==> *final(self) == old(self).sub_spec(rhs),
    {
        *self = *self - rhs;
    }
}

/// In-place product: the receiver becomes `self * rhs`.
impl<T: Mul<Output = T> + Copy> MulAssign for Vec2<T> {
    fn mul_assign(&mut self, rhs: Vec2<T>)
        requires
            old(self).mul_req(rhs),
        ensures
            call_ensures(<Vec2<T> as Mul>::mul, (*old(self), rhs), *final(self)),
            T::obeys_mul_spec() ==> *final(self) == old(self).mul_spec(rhs),
    {
        *self = *self * rhs;
    }
}

/// In-place quotient: the receiver becomes `self / rhs`.
impl<T: Div<Output = T> + Copy> DivAssign for Vec2<T> {
    fn div_assign(&mut self, rhs: Vec2<T>)
        requires
            old(self).div_req(rhs),
        ensures
            call_ensures(<Vec2<T> as Div>::div, (*old(self), rhs), *final(self)),
            T::obeys_div_spec() ==> *final(self) == old(self).div_spec(rhs),
    {
        *self = *self / rhs;
    }
}

/// In-place remainder: the receiver becomes `self % rhs`.
impl<T: Rem<Output = T> + Copy> RemAssign for Vec2<T> {
    fn rem_assign(&mut self, rhs: Vec2<T>)
        requires
            old(self).rem_req(rhs),
        ensures
            call_ensures(<Vec2<T> as Rem>::rem, (*old(self), rhs), *final(self)),
            T::obeys_rem_spec() ==> *final(self) == old(self).rem_spec(rhs),
    {
        *self = *self % rhs;
    }
}

/// In-place bitwise and: the receiver becomes `self & rhs`.
impl<T: BitAnd<Output = T> + Copy> BitAndAssign for Vec2<T> {
    fn bitand_assign(&mut self, rhs: Vec2<T>)
        requires
            old(self).bitand_req(rhs),
        ensures
            call_ensures(<Vec2<T> as BitAnd>::bitand, (*old(self), rhs), *final(self)),
            T::obeys_bitand_spec() ==> *final(self) == old(self).bitand_spec(rhs),
    {
        *self = *self & rhs;
    }
}

/// In-place bitwise or: the receiver becomes `self | rhs`.
impl<T: BitOr<Output = T> + Copy> BitOrAssign for Vec2<T> {
    fn bitor_assign(&mut self, rhs: Vec2<T>)
        requires
            old(self).bitor_req(rhs),
        ensures
            call_ensures(<Vec2<T> as BitOr>::bitor, (*old(self), rhs), *final(self)),
            T::obeys_bitor_spec() ==> *final(self) == old(self).bitor_spec(rhs),
    {
        *self = *self | rhs;
    }
}

/// In-place bitwise exclusive or: the receiver becomes `self ^ rhs`.
impl<T: BitXor<Output = T> + Copy> BitXorAssign for Vec2<T> {
    fn bitxor_assign(&mut self, rhs: Vec2<T>)
        requires
            old(self).bitxor_req(rhs),
        ensures
            call_ensures(<Vec2<T> as BitXor>::bitxor, (*old(self), rhs), *final(self)),
            T::obeys_bitxor_spec() ==> *final(self) == old(self).bitxor_spec(rhs),
    {
        *self = *self ^ rhs;
    }
}

/// In-place left shift: the receiver becomes `self << rhs`.
impl<T: Shl<Output = T> + Copy> ShlAssign for Vec2<T> {
    fn shl_assign(&mut self, rhs: Vec2<T>)
        requires
            old(self).shl_req(rhs),
        ensures
            call_ensures(<Vec2<T> as Shl>::shl, (*old(self), rhs), *final(self)),
            T::obeys_shl_spec() ==> *final(self) == old(self).shl_spec(rhs),
    {
        *self = *self << rhs;
    }
}

/// In-place right shift: the receiver becomes `self >> rhs`.
impl<T: Shr<Output = T> + Copy> ShrAssign for Vec2<T> {
    fn shr_assign(&mut self, rhs: Vec2<T>)
        requires
            old(self).shr_req(rhs),
        ensures
            call_ensures(<Vec2<T> as Shr>::shr, (*old(self), rhs), *final(self)),
            T::obeys_shr_spec() ==> *final(self) == old(self).shr_spec(rhs),
    {
        *self = *self >> rhs;
    }
}

/// Scalar product: the same scalar on both components.
impl<A: Mul<Output = B> + Copy, B> Mul<A> for Vec2<A> {
    type Output = Vec2<B>;

    fn mul(self, rhs: A) -> (r: Vec2<B>)
        ensures
            A::obeys_mul_spec() ==> r.x == self.x.mul_spec(rhs) && r.y == self.y.mul_spec(rhs),
    {
        Vec2::new(self.x * rhs, self.y * rhs)
    }
}

impl<A: Mul<Output = B> + Copy, B> vstd::std_specs::ops::MulSpecImpl<A> for Vec2<A> {
    open spec fn obeys_mul_spec() -> bool {
        A::obeys_mul_spec()
    }

    open spec fn mul_req(self, rhs: A) -> bool {
        self.x.mul_req(rhs) && self.y.mul_req(rhs)
    }

    open spec fn mul_spec(self, rhs: A) -> Vec2<B> {
        Vec2 { x: self.x.mul_spec(rhs), y: self.y.mul_spec(rhs) }
    }
}

/// In-place scalar product: the receiver becomes `self * rhs`.
impl<T: Mul<Output = T> + Copy> MulAssign<T> for Vec2<T> {
    fn mul_assign(&mut self, rhs: T)
        requires
            old(self).mul_req(rhs),
        ensures
            call_ensures(<Vec2<T> as Mul<T>>::mul, (*old(self), rhs), *final(self)),
            T::obeys_mul_spec() ==> *final(self) == old(self).mul_spec(rhs),
    {
        *self = *self * rhs;
    }
}

/// Scalar quotient: the same scalar on both components.
impl<A: Div<Output = B> + Copy, B> Div<A> for Vec2<A> {
    type Output = Vec2<B>;

    fn div(self, rhs: A) -> (r: Vec2<B>)
        ensures
            A::obeys_div_spec() ==> r.x == self.x.div_spec(rhs) && r.y == self.y.div_spec(rhs),
    {
        Vec2::new(self.x / rhs, self.y / rhs)
    }
}

impl<A: Div<Output = B> + Copy, B> vstd::std_specs::ops::DivSpecImpl<A> for Vec2<A> {
    open spec fn obeys_div_spec() -> bool {
        A::obeys_div_spec()
    }

    open spec fn div_req(self, rhs: A) -> bool {
        self.x.div_req(rhs) && self.y.div_req(rhs)
    }

    open spec fn div_spec(self, rhs: A) -> Vec2<B> {
        Vec2 { x: self.x.div_spec(rhs), y: self.y.div_spec(rhs) }
    }
}

/// In-place scalar quotient: the receiver becomes `self / rhs`.
impl<T: Div<Output = T> + Copy> DivAssign<T> for Vec2<T> {
    fn div_assign(&mut self, rhs: T)
        requires
            old(self).div_req(rhs),
        ensures
            call_ensures(<Vec2<T> as Div<T>>::div, (*old(self), rhs), *final(self)),
            T::obeys_div_spec() ==> *final(self) == old(self).div_spec(rhs),
    {
        *self = *self / rhs;
    }
}

} // verus!
