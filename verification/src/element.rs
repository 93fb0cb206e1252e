//! The capability that a matrix asks of its elements: exact integer
//! arithmetic within the type's range, a zero, and a decimal rendering.

use vstd::prelude::*;
use crate::decimal::{decimal, render_signed, render_unsigned};

verus! {

/// An integer-like value that a matrix can hold.
///
/// Every element denotes a mathematical integer. Sums and products are
/// exact: they are only asked for where the mathematical result is
/// representable in the type, so no operation ever wraps or traps.
pub trait Element: Copy {
    /// The integer that the element denotes.
    spec fn value(&self) -> int;

    /// Whether some element of the type denotes `v`.
    spec fn representable(v: int) -> bool;

    /// The additive identity, from which every sum starts.
    fn zero() -> (z: Self)
        ensures
            z.value() == 0,
    ;

    /// The exact sum of two elements.
    fn plus(self, rhs: Self) -> (sum: Self)
        requires
            Self::representable(self.value() + rhs.value()),
        ensures
            sum.value() == self.value() + rhs.value(),
    ;

    /// The exact product of two elements.
    fn times(self, rhs: Self) -> (product: Self)
        requires
            Self::representable(self.value() * rhs.value()),
        ensures
            product.value() == self.value() * rhs.value(),
    ;

    /// The sum of two elements, where the type can represent it.
    fn checked_plus(self, rhs: Self) -> (sum: Option<Self>)
        ensures
            sum is Some <==> Self::representable(self.value() + rhs.value()),
            sum is Some ==> sum->Some_0.value() == self.value() + rhs.value(),
    ;

    /// The product of two elements, where the type can represent it.
    fn checked_times(self, rhs: Self) -> (product: Option<Self>)
        ensures
            product is Some <==> Self::representable(self.value() * rhs.value()),
            product is Some ==> product->Some_0.value() == self.value() * rhs.value(),
    ;

    /// The element in decimal notation.
    fn render(&self) -> (text: String)
        ensures
            text@ == decimal(self.value()),
    ;
}

impl Element for i8 {
    open spec fn value(&self) -> int {
        *self as int
    }

    open spec fn representable(v: int) -> bool {
        i8::MIN <= v <= i8::MAX
    }

    fn zero() -> (z: Self) {
        0
    }

    fn plus(self, rhs: Self) -> (sum: Self) {
        self + rhs
    }

    fn times(self, rhs: Self) -> (product: Self) {
        self * rhs
    }

    fn checked_plus(self, rhs: Self) -> (sum: Option<Self>) {
        self.checked_add(rhs)
    }

    fn checked_times(self, rhs: Self) -> (product: Option<Self>) {
        self.checked_mul(rhs)
    }

    fn render(&self) -> (text: String) {
        render_signed(*self as i128)
    }
}

impl Element for i16 {
    open spec fn value(&self) -> int {
        *self as int
    }

    open spec fn representable(v: int) -> bool {
        i16::MIN <= v <= i16::MAX
    }

    fn zero() -> (z: Self) {
        0
    }

    fn plus(self, rhs: Self) -> (sum: Self) {
        self + rhs
    }

    fn times(self, rhs: Self) -> (product: Self) {
        self * rhs
    }

    fn checked_plus(self, rhs: Self) -> (sum: Option<Self>) {
        self.checked_add(rhs)
    }

    fn checked_times(self, rhs: Self) -> (product: Option<Self>) {
        self.checked_mul(rhs)
    }

    fn render(&self) -> (text: String) {
        render_signed(*self as i128)
    }
}

impl Element for i32 {
    open spec fn value(&self) -> int {
        *self as int
    }

    open spec fn representable(v: int) -> bool {
        i32::MIN <= v <= i32::MAX
    }

    fn zero() -> (z: Self) {
        0
    }

    fn plus(self, rhs: Self) -> (sum: Self) {
        self + rhs
    }

    fn times(self, rhs: Self) -> (product: Self) {
        self * rhs
    }

    fn checked_plus(self, rhs: Self) -> (sum: Option<Self>) {
        self.checked_add(rhs)
    }

    fn checked_times(self, rhs: Self) -> (product: Option<Self>) {
        self.checked_mul(rhs)
    }

    fn render(&self) -> (text: String) {
        render_signed(*self as i128)
    }
}

impl Element for i64 {
    open spec fn value(&self) -> int {
        *self as int
    }

    open spec fn representable(v: int) -> bool {
        i64::MIN <= v <= i64::MAX
    }

    fn zero() -> (z: Self) {
        0
    }

    fn plus(self, rhs: Self) -> (sum: Self) {
        self + rhs
    }

    fn times(self, rhs: Self) -> (product: Self) {
        self * rhs
    }

    fn checked_plus(self, rhs: Self) -> (sum: Option<Self>) {
        self.checked_add(rhs)
    }

    fn checked_times(self, rhs: Self) -> (product: Option<Self>) {
        self.checked_mul(rhs)
    }

    fn render(&self) -> (text: String) {
        render_signed(*self as i128)
    }
}

impl Element for i128 {
    open spec fn value(&self) -> int {
        *self as int
    }

    open spec fn representable(v: int) -> bool {
        i128::MIN <= v <= i128::MAX
    }

    fn zero() -> (z: Self) {
        0
    }

    fn plus(self, rhs: Self) -> (sum: Self) {
        self + rhs
    }

    fn times(self, rhs: Self) -> (product: Self) {
        self * rhs
    }

    fn checked_plus(self, rhs: Self) -> (sum: Option<Self>) {
        self.checked_add(rhs)
    }

    fn checked_times(self, rhs: Self) -> (product: Option<Self>) {
        self.checked_mul(rhs)
    }

    fn render(&self) -> (text: String) {
        render_signed(*self as i128)
    }
}

impl Element for isize {
    open spec fn value(&self) -> int {
        *self as int
    }

    open spec fn representable(v: int) -> bool {
        isize::MIN <= v <= isize::MAX
    }

    fn zero() -> (z: Self) {
        0
    }

    fn plus(self, rhs: Self) -> (sum: Self) {
        self + rhs
    }

    fn times(self, rhs: Self) -> (product: Self) {
        self * rhs
    }

    fn checked_plus(self, rhs: Self) -> (sum: Option<Self>) {
        self.checked_add(rhs)
    }

    fn checked_times(self, rhs: Self) -> (product: Option<Self>) {
        self.checked_mul(rhs)
    }

    fn render(&self) -> (text: String) {
        render_signed(*self as i128)
    }
}

impl Element for u8 {
    open spec fn value(&self) -> int {
        *self as int
    }

    open spec fn representable(v: int) -> bool {
        0 <= v <= u8::MAX
    }

    fn zero() -> (z: Self) {
        0
    }

    fn plus(self, rhs: Self) -> (sum: Self) {
        self + rhs
    }

    fn times(self, rhs: Self) -> (product: Self) {
        self * rhs
    }

    fn checked_plus(self, rhs: Self) -> (sum: Option<Self>) {
        self.checked_add(rhs)
    }

    fn checked_times(self, rhs: Self) -> (product: Option<Self>) {
        self.checked_mul(rhs)
    }

    fn render(&self) -> (text: String) {
        render_unsigned(*self as u128)
    }
}

impl Element for u16 {
    open spec fn value(&self) -> int {
        *self as int
    }

    open spec fn representable(v: int) -> bool {
        0 <= v <= u16::MAX
    }

    fn zero() -> (z: Self) {
        0
    }

    fn plus(self, rhs: Self) -> (sum: Self) {
        self + rhs
    }

    fn times(self, rhs: Self) -> (product: Self) {
        self * rhs
    }

    fn checked_plus(self, rhs: Self) -> (sum: Option<Self>) {
        self.checked_add(rhs)
    }

    fn checked_times(self, rhs: Self) -> (product: Option<Self>) {
        self.checked_mul(rhs)
    }

    fn render(&self) -> (text: String) {
        render_unsigned(*self as u128)
    }
}

impl Element for u32 {
    open spec fn value(&self) -> int {
        *self as int
    }

    open spec fn representable(v: int) -> bool {
        0 <= v <= u32::MAX
    }

    fn zero() -> (z: Self) {
        0
    }

    fn plus(self, rhs: Self) -> (sum: Self) {
        self + rhs
    }

    fn times(self, rhs: Self) -> (product: Self) {
        self * rhs
    }

    fn checked_plus(self, rhs: Self) -> (sum: Option<Self>) {
        self.checked_add(rhs)
    }

    fn checked_times(self, rhs: Self) -> (product: Option<Self>) {
        self.checked_mul(rhs)
    }

    fn render(&self) -> (text: String) {
        render_unsigned(*self as u128)
    }
}

impl Element for u64 {
    open spec fn value(&self) -> int {
        *self as int
    }

    open spec fn representable(v: int) -> bool {
        0 <= v <= u64::MAX
    }

    fn zero() -> (z: Self) {
        0
    }

    fn plus(self, rhs: Self) -> (sum: Self) {
        self + rhs
    }

    fn times(self, rhs: Self) -> (product: Self) {
        self * rhs
    }

    fn checked_plus(self, rhs: Self) -> (sum: Option<Self>) {
        self.checked_add(rhs)
    }

    fn checked_times(self, rhs: Self) -> (product: Option<Self>) {
        self.checked_mul(rhs)
    }

    fn render(&self) -> (text: String) {
        render_unsigned(*self as u128)
    }
}

impl Element for u128 {
    open spec fn value(&self) -> int {
        *self as int
    }

    open spec fn representable(v: int) -> bool {
        0 <= v <= u128::MAX
    }

    fn zero() -> (z: Self) {
        0
    }

    fn plus(self, rhs: Self) -> (sum: Self) {
        self + rhs
    }

    fn times(self, rhs: Self) -> (product: Self) {
        self * rhs
    }

    fn checked_plus(self, rhs: Self) -> (sum: Option<Self>) {
        self.checked_add(rhs)
    }

    fn checked_times(self, rhs: Self) -> (product: Option<Self>) {
        self.checked_mul(rhs)
    }

    fn render(&self) -> (text: String) {
        render_unsigned(*self as u128)
    }
}

impl Element for usize {
    open spec fn value(&self) -> int {
        *self as int
    }

    open spec fn representable(v: int) -> bool {
        0 <= v <= usize::MAX
    }

    fn zero() -> (z: Self) {
        0
    }

    fn plus(self, rhs: Self) -> (sum: Self) {
        self + rhs
    }

    fn times(self, rhs: Self) -> (product: Self) {
        self * rhs
    }

    fn checked_plus(self, rhs: Self) -> (sum: Option<Self>) {
        self.checked_add(rhs)
    }

    fn checked_times(self, rhs: Self) -> (product: Option<Self>) {
        self.checked_mul(rhs)
    }

    fn render(&self) -> (text: String) {
        render_unsigned(*self as u128)
    }
}

} // verus!
