use vstd::prelude::*;

use crate::checked::CheckedAdd;
use crate::sequence::spec_fib;

verus! {

/// The generator's state, reduced to the mathematical values of its two
/// slots: the term to emit next and the one after it.
pub open spec fn step<T: CheckedAdd>(cur: Option<int>, up: Option<int>) -> (Option<int>, Option<int>) {
    match (cur, up) {
        (Option::None, _) => (cur, up),
        (Option::Some(_), Option::None) => (Option::None, Option::None),
        (Option::Some(c), Option::Some(n)) => (
            Option::Some(n),
            if T::sum_overflows(n, c) {
                Option::None
            } else {
                Option::Some(n + c)
            },
        ),
    }
}

/// The state reached from `(cur, up)` after `k` emission requests.
pub open spec fn state_after<T: CheckedAdd>(cur: Option<int>, up: Option<int>, k: nat) -> (Option<int>, Option<int>)
    decreases k,
{
    if k == 0 {
        (cur, up)
    } else {
        let s = step::<T>(cur, up);
        state_after::<T>(s.0, s.1, (k - 1) as nat)
    }
}

/// The answers of the first `k` emission requests made from state
/// `(cur, up)`: each element is the emitted term's value, or `None` where the
/// generator was exhausted.
pub open spec fn emissions<T: CheckedAdd>(cur: Option<int>, up: Option<int>, k: nat) -> Seq<Option<int>>
    decreases k,
{
    if k == 0 {
        Seq::empty()
    } else {
        let s = step::<T>(cur, up);
        seq![cur] + emissions::<T>(s.0, s.1, (k - 1) as nat)
    }
}

/// The first `k` emission requests give exactly `k` answers.
pub proof fn lemma_emissions_len<T: CheckedAdd>(cur: Option<int>, up: Option<int>, k: nat)
    ensures
        emissions::<T>(cur, up, k).len() == k,
    decreases k,
{
    if k > 0 {
        let s = step::<T>(cur, up);
        lemma_emissions_len::<T>(s.0, s.1, (k - 1) as nat);
    }
}

/// Law: exhaustion is terminal. Once the current slot is empty, every one of
/// the next `k` emission requests answers `None`, however many are made.
pub proof fn lemma_exhausted_forever<T: CheckedAdd>(up: Option<int>, k: nat)
    ensures
        forall|i: int|
            0 <= i < k ==> emissions::<T>(Option::None, up, k)[i] is None,
    decreases k,
{
    if k > 0 {
        lemma_exhausted_forever::<T>(up, (k - 1) as nat);
        lemma_emissions_len::<T>(Option::None, up, (k - 1) as nat);
        assert forall|i: int| 0 <= i < k implies emissions::<T>(Option::None, up, k)[i] is None by {
            if i > 0 {
                assert(emissions::<T>(Option::None, up, k)[i] == emissions::<T>(
                    Option::None,
                    up,
                    (k - 1) as nat,
                )[i - 1]);
            }
        }
    }
}

/// Law: overflow truncates the tail but never drops a valid term. When the
/// checked sum of the two held terms overflows, both held terms are still
/// emitted, in order, and only then does the generator answer `None`.
pub proof fn lemma_overflow_keeps_last_term<T: CheckedAdd>(c: int, n: int, k: nat)
    requires
        T::sum_overflows(n, c),
        k >= 3,
    ensures
        emissions::<T>(Option::Some(c), Option::Some(n), k)[0] == Option::Some(c),
        emissions::<T>(Option::Some(c), Option::Some(n), k)[1] == Option::Some(n),
        emissions::<T>(Option::Some(c), Option::Some(n), k)[2] is None,
{
    let s1 = step::<T>(Option::Some(c), Option::Some(n));
    let s2 = step::<T>(s1.0, s1.1);
    lemma_emissions_len::<T>(s1.0, s1.1, (k - 1) as nat);
    lemma_emissions_len::<T>(s2.0, s2.1, (k - 2) as nat);
    assert(emissions::<T>(Option::Some(c), Option::Some(n), k)[1] == emissions::<T>(
        s1.0,
        s1.1,
        (k - 1) as nat,
    )[0]);
    assert(emissions::<T>(Option::Some(c), Option::Some(n), k)[2] == emissions::<T>(
        s1.0,
        s1.1,
        (k - 1) as nat,
    )[1]);
    assert(emissions::<T>(s1.0, s1.1, (k - 1) as nat)[1] == emissions::<T>(
        s2.0,
        s2.1,
        (k - 2) as nat,
    )[0]);
}

/// From a state whose slots carry the recurrence's values at positions `m`
/// and `m + 1`, every term answered within the next `k` requests carries the
/// recurrence's value at its position.
proof fn lemma_terms_from_state<T: CheckedAdd>(
    s0: int,
    s1: int,
    m: nat,
    cur: Option<int>,
    up: Option<int>,
    k: nat,
)
    requires
        cur matches Option::Some(c) ==> c == spec_fib(s0, s1, m),
        up matches Option::Some(n) ==> cur is Some && n == spec_fib(s0, s1, m + 1),
    ensures
        forall|i: int|
            0 <= i < k && #[trigger] emissions::<T>(cur, up, k)[i] is Some ==> emissions::<T>(
                cur,
                up,
                k,
            )[i]->0 == spec_fib(s0, s1, (m + i) as nat),
    decreases k,
{
    if k > 0 {
        let s = step::<T>(cur, up);
        lemma_terms_from_state::<T>(s0, s1, m + 1, s.0, s.1, (k - 1) as nat);
        lemma_emissions_len::<T>(s.0, s.1, (k - 1) as nat);
        assert forall|i: int|
            0 <= i < k && #[trigger] emissions::<T>(cur, up, k)[i] is Some implies emissions::<T>(
            cur,
            up,
            k,
        )[i]->0 == spec_fib(s0, s1, (m + i) as nat) by {
            if i > 0 {
                assert(emissions::<T>(cur, up, k)[i] == emissions::<T>(s.0, s.1, (k - 1) as nat)[i
                    - 1]);
            }
        }
    }
}

/// Law: every emitted term obeys the Fibonacci recurrence. Whatever the
/// seeds and however many requests are made, the answer to request `i` is
/// either `None` or the recurrence's value at position `i`; in particular,
/// as long as no overflow has occurred, term `i` equals `spec_fib(s0, s1, i)`.
pub proof fn lemma_terms_follow_recurrence<T: CheckedAdd>(s0: int, s1: int, k: nat)
    ensures
        forall|i: int|
            0 <= i < k && #[trigger] emissions::<T>(
                Option::Some(s0),
                Option::Some(s1),
                k,
            )[i] is Some ==> emissions::<T>(Option::Some(s0), Option::Some(s1), k)[i]->0
                == spec_fib(s0, s1, i as nat),
{
    lemma_terms_from_state::<T>(s0, s1, 0, Option::Some(s0), Option::Some(s1), k);
}

/// Law: determinism. Two generators started from equal slot values answer
/// every emission request identically, however many requests are made; no
/// hidden state influences the sequence.
pub proof fn lemma_deterministic<T: CheckedAdd>(
    cur1: Option<int>,
    up1: Option<int>,
    cur2: Option<int>,
    up2: Option<int>,
    k: nat,
)
    requires
        cur1 == cur2,
        up1 == up2,
    ensures
        emissions::<T>(cur1, up1, k) == emissions::<T>(cur2, up2, k),
{
}

/// Law: a capability that never reports overflow never exhausts the
/// generator. From a state with both slots held, every later state still
/// holds both slots, and every emission request is answered with a term.
pub proof fn lemma_no_overflow_never_exhausts<T: CheckedAdd>(cur: Option<int>, up: Option<int>, k: nat)
    requires
        forall|a: int, b: int| !T::sum_overflows(a, b),
        cur is Some,
        up is Some,
    ensures
        state_after::<T>(cur, up, k).0 is Some,
        state_after::<T>(cur, up, k).1 is Some,
        forall|i: int| 0 <= i < k ==> emissions::<T>(cur, up, k)[i] is Some,
    decreases k,
{
    if k > 0 {
        let s = step::<T>(cur, up);
        assert(!T::sum_overflows(up->0, cur->0));
        lemma_no_overflow_never_exhausts::<T>(s.0, s.1, (k - 1) as nat);
        lemma_emissions_len::<T>(s.0, s.1, (k - 1) as nat);
        assert forall|i: int| 0 <= i < k implies emissions::<T>(cur, up, k)[i] is Some by {
            if i > 0 {
                assert(emissions::<T>(cur, up, k)[i] == emissions::<T>(s.0, s.1, (k - 1) as nat)[i
                    - 1]);
            }
        }
    }
}

} // verus!
