use vstd::prelude::*;

verus! {

/// The checked-addition capability: a numeric type that can add two of its
/// values and report, instead of wrapping or panicking, when the mathematical
/// sum does not fit in the type's range.
///
/// `value` gives the mathematical integer a value stands for, and
/// `sum_overflows` says for which pairs of integers the sum is not
/// representable. Whether an addition succeeds thus depends on the operands'
/// mathematical values alone, never on hidden state.
pub trait CheckedAdd: Sized {
    /// The mathematical integer this value represents.
    spec fn value(self) -> int;

    /// Whether the sum of two represented integers falls outside the range
    /// this type can represent.
    spec fn sum_overflows(a: int, b: int) -> bool;

    /// Adds `other` to `self`, returning the sum when it is representable and
    /// `None` otherwise. Total over all input pairs; no side effects.
    fn checked_add(self, other: Self) -> (r: Option<Self>)
        ensures
            r is Some <==> !Self::sum_overflows(self.value(), other.value()),
            r is Some ==> r->0.value() == self.value() + other.value(),
    ;
}

impl CheckedAdd for u128 {
    open spec fn value(self) -> int {
        self as int
    }

    open spec fn sum_overflows(a: int, b: int) -> bool {
        a + b > u128::MAX
    }

    fn checked_add(self, other: Self) -> (r: Option<Self>) {
        u128::checked_add(self, other)
    }
}

/// An eight-bit unsigned number with checked addition: the smallest capability
/// on which overflow of the Fibonacci recurrence is quickly reached.
#[derive(Clone, Copy)]
pub struct FibonacciNumber(pub u8);

impl CheckedAdd for FibonacciNumber {
    open spec fn value(self) -> int {
        self.0 as int
    }

    open spec fn sum_overflows(a: int, b: int) -> bool {
        a + b > u8::MAX
    }

    fn checked_add(self, other: Self) -> (r: Option<Self>) {
        match self.0.checked_add(other.0) {
            Some(val) => Some(Self(val)),
            None => None,
        }
    }
}

/// A capability that never reports overflow: its only value stands for zero,
/// so every sum is representable. It lets a bounded machine drive the
/// generator without the sequence ever ending.
#[derive(Clone, Copy)]
pub struct ZeroNumber;

impl CheckedAdd for ZeroNumber {
    open spec fn value(self) -> int {
        0
    }

    open spec fn sum_overflows(a: int, b: int) -> bool {
        false
    }

    fn checked_add(self, other: Self) -> (r: Option<Self>) {
        Some(ZeroNumber)
    }
}

} // verus!
