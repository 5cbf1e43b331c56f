use fibonacci::{FibonacciNumber, FibonacciSequence, ZeroNumber};

enum KnownFibonacciNumber {
    First,
    Second,
    Third,
    Fifth,
}

impl KnownFibonacciNumber {
    fn value(self) -> FibonacciNumber {
        match self {
            Self::First => FibonacciNumber(0),
            Self::Second => FibonacciNumber(1),
            Self::Third => FibonacciNumber(1),
            Self::Fifth => FibonacciNumber(3),
        }
    }
}

fn make_test_sequence() -> FibonacciSequence<FibonacciNumber> {
    FibonacciSequence::new(
        KnownFibonacciNumber::First.value(),
        KnownFibonacciNumber::Second.value(),
    )
}

fn nth(
    mut sequence: FibonacciSequence<FibonacciNumber>,
    index: usize,
) -> Option<FibonacciNumber> {
    let mut item = sequence.next();
    let mut taken: usize = 0;
    while taken < index {
        item = sequence.next();
        taken += 1;
    }
    item
}

#[test]
fn calculates_first_num_correctly() {
    assert_eq!(
        KnownFibonacciNumber::First.value().0,
        nth(make_test_sequence(), 0).unwrap().0
    );
}

#[test]
fn calculates_second_num_correctly() {
    assert_eq!(
        KnownFibonacciNumber::Second.value().0,
        nth(make_test_sequence(), 1).unwrap().0
    );
}

#[test]
fn calculates_third_num_correctly() {
    assert_eq!(
        KnownFibonacciNumber::Third.value().0,
        nth(make_test_sequence(), 2).unwrap().0
    );
}

#[test]
fn calculates_fifth_num_correctly() {
    assert_eq!(
        KnownFibonacciNumber::Fifth.value().0,
        nth(make_test_sequence(), 4).unwrap().0
    );
}

#[test]
fn eight_bit_sequence_truncates_at_overflow() {
    let expected: Vec<u8> = vec![0, 1, 1, 2, 3, 5, 8, 13, 21, 34, 55, 89, 144, 233];
    let mut sequence = make_test_sequence();
    let mut produced: Vec<u8> = Vec::new();
    while let Some(term) = sequence.next() {
        produced.push(term.0);
        assert!(produced.len() <= expected.len());
    }
    assert_eq!(expected, produced);
}

#[test]
fn exhausted_generator_keeps_answering_none() {
    let mut sequence = FibonacciSequence::new(FibonacciNumber(250), FibonacciNumber(250));
    assert_eq!(250, sequence.next().unwrap().0);
    assert_eq!(250, sequence.next().unwrap().0);
    assert!(sequence.next().is_none());
    assert!(sequence.next().is_none());
    assert!(sequence.next().is_none());
}

#[test]
fn identical_seeds_give_identical_sequences() {
    let mut first = FibonacciSequence::new(FibonacciNumber(1), FibonacciNumber(2));
    let mut second = FibonacciSequence::new(FibonacciNumber(1), FibonacciNumber(2));
    let mut calls: usize = 0;
    while calls < 30 {
        let a = first.next().map(|term| term.0);
        let b = second.next().map(|term| term.0);
        assert_eq!(a, b);
        calls += 1;
    }
}

#[test]
fn never_overflowing_capability_never_ends() {
    let mut sequence = FibonacciSequence::new(ZeroNumber, ZeroNumber);
    let mut calls: usize = 0;
    while calls < 1000 {
        assert!(sequence.next().is_some());
        calls += 1;
    }
}

#[test]
fn wide_unsigned_sequence_matches_recurrence() {
    let mut sequence: FibonacciSequence<u128> = FibonacciSequence::new(0, 1);
    let mut produced: Vec<u128> = Vec::new();
    while let Some(term) = sequence.next() {
        produced.push(term);
        assert!(produced.len() <= 187);
    }
    assert_eq!(187, produced.len());
    assert_eq!(0, produced[0]);
    assert_eq!(1, produced[1]);
    assert_eq!(1, produced[2]);
    assert_eq!(354224848179261915075, produced[100]);
    assert_eq!(332825110087067562321196029789634457848, produced[186]);
    assert!(sequence.next().is_none());
}
