use down2earth::retry::{Retry, DEFAULT_ATTEMPTS};

#[test]
fn default_budget_is_three_attempts() {
    assert_eq!(DEFAULT_ATTEMPTS, 3);
}

#[test]
fn first_attempt_counts() {
    assert_eq!(Retry::start(3), Retry { max_attempts: 3, made: 1 });
}

#[test]
fn budget_of_three_allows_two_retries() {
    let first = Retry::start(3);
    let second = first.on_failure().unwrap();
    assert_eq!(second.made, 2);
    let third = second.on_failure().unwrap();
    assert_eq!(third.made, 3);
    assert_eq!(third.on_failure(), None);
}

#[test]
fn budget_of_one_allows_no_retry() {
    assert_eq!(Retry::start(1).on_failure(), None);
}

#[test]
fn never_more_attempts_than_the_budget() {
    for budget in 1..=20u32 {
        let mut sent = 1;
        let mut state = Retry::start(budget);
        while let Some(next) = state.on_failure() {
            sent += 1;
            assert_eq!(next.made, sent);
            assert_eq!(next.max_attempts, budget);
            state = next;
        }
        assert_eq!(sent, budget);
    }
}
