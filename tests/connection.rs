use blectl::connection::{NextStep, Retry, MAX_ATTEMPTS};

/// Runs the retry procedure against scripted connect outcomes; returns the
/// result and how many outcomes were asked for.
fn drive(already_connected: bool, outcomes: &[Result<(), &'static str>]) -> (Result<(), &'static str>, usize) {
    let mut retry = Retry::new(already_connected);
    let mut used: usize = 0;
    while retry.next_step() == NextStep::Attempt {
        retry.record(outcomes[used]);
        used += 1;
    }
    (retry.finish(), used)
}

#[test]
fn already_connected_makes_no_attempt() {
    assert_eq!(drive(true, &[]), (Ok(()), 0));
    assert_eq!(drive(true, &[Err("e1"), Err("e2")]), (Ok(()), 0));
}

#[test]
fn success_on_first_attempt() {
    assert_eq!(drive(false, &[Ok(()), Err("unused")]), (Ok(()), 1));
}

#[test]
fn success_on_second_attempt() {
    assert_eq!(drive(false, &[Err("e1"), Ok(())]), (Ok(()), 2));
}

#[test]
fn fails_twice_then_connects() {
    assert_eq!(drive(false, &[Err("e1"), Err("e2"), Ok(())]), (Ok(()), 3));
}

#[test]
fn three_failures_give_last_error() {
    assert_eq!(
        drive(false, &[Err("e1"), Err("e2"), Err("e3"), Ok(())]),
        (Err("e3"), 3)
    );
}

#[test]
fn steps_follow_the_attempt_count() {
    let mut retry: Retry<u8> = Retry::new(false);
    for k in 0..MAX_ATTEMPTS {
        assert_eq!(retry.next_step(), NextStep::Attempt);
        retry.record(Err(k as u8));
    }
    assert_eq!(retry.next_step(), NextStep::GiveUp);
    assert_eq!(retry.finish(), Err(2));
    let connected: Retry<u8> = Retry::new(true);
    assert_eq!(connected.next_step(), NextStep::Connected);
}
