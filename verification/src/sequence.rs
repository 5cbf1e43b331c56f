use vstd::prelude::*;

use crate::checked::CheckedAdd;
use crate::laws::step;

verus! {

/// The Fibonacci recurrence over unbounded integers, seeded by `s0` and `s1`:
/// term 0 is `s0`, term 1 is `s1`, and every later term is the sum of the two
/// before it.
pub open spec fn spec_fib(s0: int, s1: int, i: nat) -> int
    decreases i,
{
    if i == 0 {
        s0
    } else if i == 1 {
        s1
    } else {
        spec_fib(s0, s1, (i - 1) as nat) + spec_fib(s0, s1, (i - 2) as nat)
    }
}

/// A lazy producer of successive Fibonacci terms over any numeric type with
/// the checked-addition capability. Two optional slots hold the term to emit
/// next and the one after it; when the checked sum of the two held terms
/// overflows, the upcoming slot empties, the last representable term is still
/// delivered, and the generator then stays exhausted forever.
pub struct FibonacciSequence<T> {
    current: Option<T>,
    next: Option<T>,
    seed0: Ghost<int>,
    seed1: Ghost<int>,
    emitted: Ghost<nat>,
}

impl<T: CheckedAdd> FibonacciSequence<T> {
    /// The slot holding the term the next call will emit; empty means
    /// exhausted.
    pub closed spec fn spec_current(self) -> Option<T> {
        self.current
    }

    /// The slot holding the term after the current one; empty means the
    /// current term, if any, is the last.
    pub closed spec fn spec_upcoming(self) -> Option<T> {
        self.next
    }

    /// The mathematical value of the first seed.
    pub closed spec fn seed0(self) -> int {
        self.seed0@
    }

    /// The mathematical value of the second seed.
    pub closed spec fn seed1(self) -> int {
        self.seed1@
    }

    /// How many terms have been emitted so far.
    pub closed spec fn emitted(self) -> nat {
        self.emitted@
    }

    /// The mathematical value a slot holds, if any.
    pub open spec fn slot_value(slot: Option<T>) -> Option<int> {
        match slot {
            Option::Some(v) => Option::Some(v.value()),
            Option::None => Option::None,
        }
    }

    /// The generator's state reduced to the mathematical values of its two
    /// slots, the form the laws about whole runs are stated over.
    pub open spec fn model(self) -> (Option<int>, Option<int>) {
        (Self::slot_value(self.spec_current()), Self::slot_value(self.spec_upcoming()))
    }

    /// Validity: every held term carries the value the Fibonacci recurrence
    /// assigns to its position, and a held upcoming term implies a held
    /// current one.
    pub open spec fn wf(self) -> bool {
        &&& (self.spec_current() is Some ==> self.spec_current()->0.value() == spec_fib(
            self.seed0(),
            self.seed1(),
            self.emitted(),
        ))
        &&& (self.spec_upcoming() is Some ==> self.spec_current() is Some
            && self.spec_upcoming()->0.value() == spec_fib(
            self.seed0(),
            self.seed1(),
            self.emitted() + 1,
        ))
    }

    /// Constructs a generator whose first two terms are `start` and `next`.
    /// Any two values are accepted.
    pub fn new(start: T, next: T) -> (s: Self)
        ensures
            s.wf(),
            s.emitted() == 0,
            s.seed0() == start.value(),
            s.seed1() == next.value(),
            s.spec_current() == Some(start),
            s.spec_upcoming() == Some(next),
    {
        Self {
            current: Some(start),
            next: Some(next),
            seed0: Ghost(start.value()),
            seed1: Ghost(next.value()),
            emitted: Ghost(0nat),
        }
    }
}

impl<T: CheckedAdd + Copy> FibonacciSequence<T> {
    /// Emits the next Fibonacci term, or `None` once the sequence is
    /// exhausted.
    ///
    /// The returned value is exactly the held current term, so a held term is
    /// never dropped: overflow only truncates the tail, after the last
    /// representable term has been delivered. An exhausted generator is left
    /// unchanged, so every call after the first `None` returns `None` again.
    /// On a valid generator, the term emitted as call number `i` (counting
    /// from zero) carries the value `spec_fib(seed0, seed1, i)`.
    pub fn next(&mut self) -> (r: Option<T>)
        ensures
            r == old(self).spec_current(),
            final(self).seed0() == old(self).seed0(),
            final(self).seed1() == old(self).seed1(),
            old(self).spec_current() is None ==> *final(self) == *old(self),
            old(self).spec_current() is Some ==> final(self).emitted() == old(self).emitted()
                + 1,
            old(self).spec_current() matches Some(c)
                ==> old(self).spec_upcoming() matches Some(n)
                ==> {
                &&& final(self).spec_current() == Some(n)
                &&& (final(self).spec_upcoming() is Some <==> !T::sum_overflows(
                    n.value(),
                    c.value(),
                ))
                &&& (final(self).spec_upcoming() is Some ==> final(self).spec_upcoming()->0.value()
                    == n.value() + c.value())
            },
            old(self).spec_current() is Some && old(self).spec_upcoming() is None
                ==> final(self).spec_current() is None && final(self).spec_upcoming() is None,
            final(self).model() == step::<T>(old(self).model().0, old(self).model().1),
            old(self).wf() ==> final(self).wf(),
            old(self).wf() && r is Some ==> r->0.value() == spec_fib(
                old(self).seed0(),
                old(self).seed1(),
                old(self).emitted(),
            ),
    {
        let return_value = self.current;
        if let Some(current_val) = self.current {
            if let Some(next_val) = self.next {
                self.current = self.next;
                self.next = next_val.checked_add(current_val);
            } else {
                self.current = None;
                self.next = None;
            }
            self.emitted = Ghost(self.emitted@ + 1);
        }
        return_value
    }
}

} // verus!
