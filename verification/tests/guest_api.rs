use fib::fibonacci::FibState;
use fib::guest;

#[test]
fn guest_next_returns_the_value_then_advances() {
    let mut state = FibState::new();
    let expected: Vec<u64> = vec![0, 1, 1, 2, 3, 5, 8, 13, 21];
    for term in expected {
        assert_eq!(guest::next(&mut state), Ok(term));
    }
}

#[test]
fn guest_reset_reinitializes_the_sequence() {
    let mut state = FibState::new();
    for _ in 0..4 {
        let _ = guest::next(&mut state);
    }

    guest::reset(&mut state);

    assert_eq!(guest::next(&mut state), Ok(0));
    assert_eq!(guest::next(&mut state), Ok(1));
    assert_eq!(guest::next(&mut state), Ok(1));
    assert_eq!(guest::next(&mut state), Ok(2));
}

#[test]
fn guest_next_agrees_with_the_direct_accessor() {
    let mut state = FibState::new();
    for _ in 0..16 {
        let seen: u64 = state.value() as u64;
        assert_eq!(guest::next(&mut state), Ok(seen));
    }
}
