//! The integer types a coordinate can be built over.

use vstd::prelude::*;

verus! {

/// A machine integer type usable as a coordinate component.
///
/// Every value stands for a mathematical integer, its [`value`](GridInt::value),
/// and the type covers exactly the integers from [`least`](GridInt::least) to
/// [`greatest`](GridInt::greatest). The arithmetic methods never wrap: the plain
/// ones demand that the result fits, the checked ones report when it does not.
pub trait GridInt: Copy + Sized {
    /// The mathematical integer that `self` stands for.
    spec fn value(self) -> int;

    /// The smallest integer the type can hold.
    spec fn least() -> int;

    /// The largest integer the type can hold.
    spec fn greatest() -> int;

    /// Both zero and one are representable.
    proof fn lemma_limits()
        ensures
            Self::least() <= 0,
            1 <= Self::greatest(),
    ;

    /// Every value lies within the limits of its type.
    proof fn lemma_in_limits(self)
        ensures
            Self::least() <= self.value() <= Self::greatest(),
    ;

    /// Two values that stand for the same integer are the same value.
    proof fn lemma_value_injective(a: Self, b: Self)
        requires
            a.value() == b.value(),
        ensures
            a == b,
    ;

    /// The multiplicative identity.
    fn one() -> (r: Self)
        ensures
            r.value() == 1,
    ;

    /// `self + rhs`, where the sum fits.
    fn plus(self, rhs: Self) -> (r: Self)
        requires
            Self::least() <= self.value() + rhs.value() <= Self::greatest(),
        ensures
            r.value() == self.value() + rhs.value(),
    ;

    /// `self - rhs`, where the difference fits.
    fn minus(self, rhs: Self) -> (r: Self)
        requires
            Self::least() <= self.value() - rhs.value() <= Self::greatest(),
        ensures
            r.value() == self.value() - rhs.value(),
    ;

    /// `self * rhs`, where the product fits.
    fn times(self, rhs: Self) -> (r: Self)
        requires
            Self::least() <= self.value() * rhs.value() <= Self::greatest(),
        ensures
            r.value() == self.value() * rhs.value(),
    ;

    /// `self + rhs`, or `None` exactly when the sum does not fit.
    fn checked_plus(self, rhs: Self) -> (r: Option<Self>)
        ensures
            r.is_some() <==> Self::least() <= self.value() + rhs.value() <= Self::greatest(),
            r matches Some(v) ==> v.value() == self.value() + rhs.value(),
    ;

    /// `self - rhs`, or `None` exactly when the difference does not fit.
    fn checked_minus(self, rhs: Self) -> (r: Option<Self>)
        ensures
            r.is_some() <==> Self::least() <= self.value() - rhs.value() <= Self::greatest(),
            r matches Some(v) ==> v.value() == self.value() - rhs.value(),
    ;

    /// `self * rhs`, or `None` exactly when the product does not fit.
    fn checked_times(self, rhs: Self) -> (r: Option<Self>)
        ensures
            r.is_some() <==> Self::least() <= self.value() * rhs.value() <= Self::greatest(),
            r matches Some(v) ==> v.value() == self.value() * rhs.value(),
    ;
}

impl GridInt for i8 {
    open spec fn value(self) -> int {
        self as int
    }

    open spec fn least() -> int {
        i8::MIN as int
    }

    open spec fn greatest() -> int {
        i8::MAX as int
    }

    proof fn lemma_limits() {
    }

    proof fn lemma_in_limits(self) {
    }

    proof fn lemma_value_injective(a: Self, b: Self) {
    }

    fn one() -> (r: Self) {
        1
    }

    fn plus(self, rhs: Self) -> (r: Self) {
        self + rhs
    }

    fn minus(self, rhs: Self) -> (r: Self) {
        self - rhs
    }

    fn times(self, rhs: Self) -> (r: Self) {
        self * rhs
    }

    fn checked_plus(self, rhs: Self) -> (r: Option<Self>) {
        self.checked_add(rhs)
    }

    fn checked_minus(self, rhs: Self) -> (r: Option<Self>) {
        self.checked_sub(rhs)
    }

    fn checked_times(self, rhs: Self) -> (r: Option<Self>) {
        self.checked_mul(rhs)
    }
}

impl GridInt for i16 {
    open spec fn value(self) -> int {
        self as int
    }

    open spec fn least() -> int {
        i16::MIN as int
    }

    open spec fn greatest() -> int {
        i16::MAX as int
    }

    proof fn lemma_limits() {
    }

    proof fn lemma_in_limits(self) {
    }

    proof fn lemma_value_injective(a: Self, b: Self) {
    }

    fn one() -> (r: Self) {
        1
    }

    fn plus(self, rhs: Self) -> (r: Self) {
        self + rhs
    }

    fn minus(self, rhs: Self) -> (r: Self) {
        self - rhs
    }

    fn times(self, rhs: Self) -> (r: Self) {
        self * rhs
    }

    fn checked_plus(self, rhs: Self) -> (r: Option<Self>) {
        self.checked_add(rhs)
    }

    fn checked_minus(self, rhs: Self) -> (r: Option<Self>) {
        self.checked_sub(rhs)
    }

    fn checked_times(self, rhs: Self) -> (r: Option<Self>) {
        self.checked_mul(rhs)
    }
}

impl GridInt for i32 {
    open spec fn value(self) -> int {
        self as int
    }

    open spec fn least() -> int {
        i32::MIN as int
    }

    open spec fn greatest() -> int {
        i32::MAX as int
    }

    proof fn lemma_limits() {
    }

    proof fn lemma_in_limits(self) {
    }

    proof fn lemma_value_injective(a: Self, b: Self) {
    }

    fn one() -> (r: Self) {
        1
    }

    fn plus(self, rhs: Self) -> (r: Self) {
        self + rhs
    }

    fn minus(self, rhs: Self) -> (r: Self) {
        self - rhs
    }

    fn times(self, rhs: Self) -> (r: Self) {
        self * rhs
    }

    fn checked_plus(self, rhs: Self) -> (r: Option<Self>) {
        self.checked_add(rhs)
    }

    fn checked_minus(self, rhs: Self) -> (r: Option<Self>) {
        self.checked_sub(rhs)
    }

    fn checked_times(self, rhs: Self) -> (r: Option<Self>) {
        self.checked_mul(rhs)
    }
}

impl GridInt for i64 {
    open spec fn value(self) -> int {
        self as int
    }

    open spec fn least() -> int {
        i64::MIN as int
    }

    open spec fn greatest() -> int {
        i64::MAX as int
    }

    proof fn lemma_limits() {
    }

    proof fn lemma_in_limits(self) {
    }

    proof fn lemma_value_injective(a: Self, b: Self) {
    }

    fn one() -> (r: Self) {
        1
    }

    fn plus(self, rhs: Self) -> (r: Self) {
        self + rhs
    }

    fn minus(self, rhs: Self) -> (r: Self) {
        self - rhs
    }

    fn times(self, rhs: Self) -> (r: Self) {
        self * rhs
    }

    fn checked_plus(self, rhs: Self) -> (r: Option<Self>) {
        self.checked_add(rhs)
    }

    fn checked_minus(self, rhs: Self) -> (r: Option<Self>) {
        self.checked_sub(rhs)
    }

    fn checked_times(self, rhs: Self) -> (r: Option<Self>) {
        self.checked_mul(rhs)
    }
}

impl GridInt for i128 {
    open spec fn value(self) -> int {
        self as int
    }

    open spec fn least() -> int {
        i128::MIN as int
    }

    open spec fn greatest() -> int {
        i128::MAX as int
    }

    proof fn lemma_limits() {
    }

    proof fn lemma_in_limits(self) {
    }

    proof fn lemma_value_injective(a: Self, b: Self) {
    }

    fn one() -> (r: Self) {
        1
    }

    fn plus(self, rhs: Self) -> (r: Self) {
        self + rhs
    }

    fn minus(self, rhs: Self) -> (r: Self) {
        self - rhs
    }

    fn times(self, rhs: Self) -> (r: Self) {
        self * rhs
    }

    fn checked_plus(self, rhs: Self) -> (r: Option<Self>) {
        self.checked_add(rhs)
    }

    fn checked_minus(self, rhs: Self) -> (r: Option<Self>) {
        self.checked_sub(rhs)
    }

    fn checked_times(self, rhs: Self) -> (r: Option<Self>) {
        self.checked_mul(rhs)
    }
}

impl GridInt for isize {
    open spec fn value(self) -> int {
        self as int
    }

    open spec fn least() -> int {
        isize::MIN as int
    }

    open spec fn greatest() -> int {
        isize::MAX as int
    }

    proof fn lemma_limits() {
    }

    proof fn lemma_in_limits(self) {
    }

    proof fn lemma_value_injective(a: Self, b: Self) {
    }

    fn one() -> (r: Self) {
        1
    }

    fn plus(self, rhs: Self) -> (r: Self) {
        self + rhs
    }

    fn minus(self, rhs: Self) -> (r: Self) {
        self - rhs
    }

    fn times(self, rhs: Self) -> (r: Self) {
        self * rhs
    }

    fn checked_plus(self, rhs: Self) -> (r: Option<Self>) {
        self.checked_add(rhs)
    }

    fn checked_minus(self, rhs: Self) -> (r: Option<Self>) {
        self.checked_sub(rhs)
    }

    fn checked_times(self, rhs: Self) -> (r: Option<Self>) {
        self.checked_mul(rhs)
    }
}

impl GridInt for u8 {
    open spec fn value(self) -> int {
        self as int
    }

    open spec fn least() -> int {
        u8::MIN as int
    }

    open spec fn greatest() -> int {
        u8::MAX as int
    }

    proof fn lemma_limits() {
    }

    proof fn lemma_in_limits(self) {
    }

    proof fn lemma_value_injective(a: Self, b: Self) {
    }

    fn one() -> (r: Self) {
        1
    }

    fn plus(self, rhs: Self) -> (r: Self) {
        self + rhs
    }

    fn minus(self, rhs: Self) -> (r: Self) {
        self - rhs
    }

    fn times(self, rhs: Self) -> (r: Self) {
        self * rhs
    }

    fn checked_plus(self, rhs: Self) -> (r: Option<Self>) {
        self.checked_add(rhs)
    }

    fn checked_minus(self, rhs: Self) -> (r: Option<Self>) {
        self.checked_sub(rhs)
    }

    fn checked_times(self, rhs: Self) -> (r: Option<Self>) {
        self.checked_mul(rhs)
    }
}

impl GridInt for u16 {
    open spec fn value(self) -> int {
        self as int
    }

    open spec fn least() -> int {
        u16::MIN as int
    }

    open spec fn greatest() -> int {
        u16::MAX as int
    }

    proof fn lemma_limits() {
    }

    proof fn lemma_in_limits(self) {
    }

    proof fn lemma_value_injective(a: Self, b: Self) {
    }

    fn one() -> (r: Self) {
        1
    }

    fn plus(self, rhs: Self) -> (r: Self) {
        self + rhs
    }

    fn minus(self, rhs: Self) -> (r: Self) {
        self - rhs
    }

    fn times(self, rhs: Self) -> (r: Self) {
        self * rhs
    }

    fn checked_plus(self, rhs: Self) -> (r: Option<Self>) {
        self.checked_add(rhs)
    }

    fn checked_minus(self, rhs: Self) -> (r: Option<Self>) {
        self.checked_sub(rhs)
    }

    fn checked_times(self, rhs: Self) -> (r: Option<Self>) {
        self.checked_mul(rhs)
    }
}

impl GridInt for u32 {
    open spec fn value(self) -> int {
        self as int
    }

    open spec fn least() -> int {
        u32::MIN as int
    }

    open spec fn greatest() -> int {
        u32::MAX as int
    }

    proof fn lemma_limits() {
    }

    proof fn lemma_in_limits(self) {
    }

    proof fn lemma_value_injective(a: Self, b: Self) {
    }

    fn one() -> (r: Self) {
        1
    }

    fn plus(self, rhs: Self) -> (r: Self) {
        self + rhs
    }

    fn minus(self, rhs: Self) -> (r: Self) {
        self - rhs
    }

    fn times(self, rhs: Self) -> (r: Self) {
        self * rhs
    }

    fn checked_plus(self, rhs: Self) -> (r: Option<Self>) {
        self.checked_add(rhs)
    }

    fn checked_minus(self, rhs: Self) -> (r: Option<Self>) {
        self.checked_sub(rhs)
    }

    fn checked_times(self, rhs: Self) -> (r: Option<Self>) {
        self.checked_mul(rhs)
    }
}

impl GridInt for u64 {
    open spec fn value(self) -> int {
        self as int
    }

    open spec fn least() -> int {
        u64::MIN as int
    }

    open spec fn greatest() -> int {
        u64::MAX as int
    }

    proof fn lemma_limits() {
    }

    proof fn lemma_in_limits(self) {
    }

    proof fn lemma_value_injective(a: Self, b: Self) {
    }

    fn one() -> (r: Self) {
        1
    }

    fn plus(self, rhs: Self) -> (r: Self) {
        self + rhs
    }

    fn minus(self, rhs: Self) -> (r: Self) {
        self - rhs
    }

    fn times(self, rhs: Self) -> (r: Self) {
        self * rhs
    }

    fn checked_plus(self, rhs: Self) -> (r: Option<Self>) {
        self.checked_add(rhs)
    }

    fn checked_minus(self, rhs: Self) -> (r: Option<Self>) {
        self.checked_sub(rhs)
    }

    fn checked_times(self, rhs: Self) -> (r: Option<Self>) {
        self.checked_mul(rhs)
    }
}

impl GridInt for u128 {
    open spec fn value(self) -> int {
        self as int
    }

    open spec fn least() -> int {
        u128::MIN as int
    }

    open spec fn greatest() -> int {
        u128::MAX as int
    }

    proof fn lemma_limits() {
    }

    proof fn lemma_in_limits(self) {
    }

    proof fn lemma_value_injective(a: Self, b: Self) {
    }

    fn one() -> (r: Self) {
        1
    }

    fn plus(self, rhs: Self) -> (r: Self) {
        self + rhs
    }

    fn minus(self, rhs: Self) -> (r: Self) {
        self - rhs
    }

    fn times(self, rhs: Self) -> (r: Self) {
        self * rhs
    }

    fn checked_plus(self, rhs: Self) -> (r: Option<Self>) {
        self.checked_add(rhs)
    }

    fn checked_minus(self, rhs: Self) -> (r: Option<Self>) {
        self.checked_sub(rhs)
    }

    fn checked_times(self, rhs: Self) -> (r: Option<Self>) {
        self.checked_mul(rhs)
    }
}

impl GridInt for usize {
    open spec fn value(self) -> int {
        self as int
    }

    open spec fn least() -> int {
        usize::MIN as int
    }

    open spec fn greatest() -> int {
        usize::MAX as int
    }

    proof fn lemma_limits() {
    }

    proof fn lemma_in_limits(self) {
    }

    proof fn lemma_value_injective(a: Self, b: Self) {
    }

    fn one() -> (r: Self) {
        1
    }

    fn plus(self, rhs: Self) -> (r: Self) {
        self + rhs
    }

    fn minus(self, rhs: Self) -> (r: Self) {
        self - rhs
    }

    fn times(self, rhs: Self) -> (r: Self) {
        self * rhs
    }

    fn checked_plus(self, rhs: Self) -> (r: Option<Self>) {
        self.checked_add(rhs)
    }

    fn checked_minus(self, rhs: Self) -> (r: Option<Self>) {
        self.checked_sub(rhs)
    }

    fn checked_times(self, rhs: Self) -> (r: Option<Self>) {
        self.checked_mul(rhs)
    }
}

} // verus!
