use coralgate::error::CoralGateError;
use coralgate::gate::csr::{get_signed_certificate, start_polling};
use coralgate::gate::poll::{FetchOutcome, PollAction, PollEvent, PollPolicy, PollState};

/// Runs the wait against fetches that bring `outcomes` in turn, and then
/// nothing but pending records. Gives back the seconds slept, each sleep on
/// its own, the number of fetches, and how the wait ended.
fn run(policy: &PollPolicy, outcomes: Vec<FetchOutcome>) -> (Vec<u64>, usize, Result<Vec<u8>, CoralGateError>) {
    let mut outcomes = outcomes.into_iter();
    let mut sleeps = Vec::new();
    let mut fetches = 0usize;
    let (mut state, mut action) = start_polling(policy);
    loop {
        let event = match action {
            PollAction::Fetch => {
                fetches += 1;
                PollEvent::Fetched(outcomes.next().unwrap_or(FetchOutcome::Pending))
            }
            PollAction::Sleep(secs) => {
                sleeps.push(secs);
                PollEvent::Woke
            }
            PollAction::Issue(certificate) => return (sleeps, fetches, Ok(certificate)),
            PollAction::TimeOut(error) => return (sleeps, fetches, Err(error)),
            PollAction::Wait => panic!("the wait was told what it asked for"),
        };
        let next = get_signed_certificate(policy, state, event);
        state = next.0;
        action = next.1;
    }
}

#[test]
fn test_standard_policy() {
    let policy = PollPolicy::standard();
    assert_eq!(policy.max_attempts, 32);
    assert_eq!(policy.interval_secs, 1);
    assert_eq!(policy.cooldown_secs, 30);
    let policy = PollPolicy::default();
    assert_eq!((policy.max_attempts, policy.interval_secs, policy.cooldown_secs), (32, 1, 30));
}

#[test]
fn test_certificate_on_first_fetch_is_returned_without_sleep() {
    let (sleeps, fetches, result) =
        run(&PollPolicy::standard(), vec![FetchOutcome::Signed(vec![42])]);
    assert_eq!(result.unwrap(), vec![42]);
    assert_eq!(fetches, 1);
    assert!(sleeps.is_empty());
}

#[test]
fn test_certificate_after_pending_and_failed_fetches() {
    let outcomes = vec![
        FetchOutcome::Pending,
        FetchOutcome::Failed,
        FetchOutcome::Failed,
        FetchOutcome::Pending,
        FetchOutcome::Signed(vec![1, 2]),
        FetchOutcome::Signed(vec![3]),
    ];
    let (sleeps, fetches, result) = run(&PollPolicy::standard(), outcomes);
    assert_eq!(result.unwrap(), vec![1, 2]);
    assert_eq!(fetches, 5);
    assert_eq!(sleeps, vec![1, 1, 1, 1]);
}

#[test]
fn test_certificate_on_the_last_attempt() {
    let mut outcomes = vec![FetchOutcome::Failed; 31];
    outcomes.push(FetchOutcome::Signed(vec![9]));
    let (sleeps, fetches, result) = run(&PollPolicy::standard(), outcomes);
    assert_eq!(result.unwrap(), vec![9]);
    assert_eq!(fetches, 32);
    assert_eq!(sleeps, vec![1; 31]);
}

#[test]
fn test_timeout_after_all_attempts_and_the_cooldown() {
    let mut outcomes = Vec::new();
    for i in 0..32 {
        outcomes.push(if i % 2 == 0 { FetchOutcome::Pending } else { FetchOutcome::Failed });
    }
    outcomes.push(FetchOutcome::Signed(vec![1]));
    let (sleeps, fetches, result) = run(&PollPolicy::standard(), outcomes);
    assert_eq!(fetches, 32);
    let mut expected = vec![1u64; 32];
    expected.push(30);
    assert_eq!(sleeps, expected);
    match result {
        Err(CoralGateError::TimeoutError(operation)) => {
            assert_eq!(operation, "Timed out getting signed certificate")
        }
        _ => panic!("the wait must time out"),
    }
}

#[test]
fn test_timeout_with_other_policy() {
    let policy = PollPolicy { max_attempts: 3, interval_secs: 5, cooldown_secs: 7 };
    let (sleeps, fetches, result) = run(&policy, vec![]);
    assert_eq!(fetches, 3);
    assert_eq!(sleeps, vec![5, 5, 5, 7]);
    assert!(matches!(result, Err(CoralGateError::TimeoutError(_))));
}

#[test]
fn test_no_attempts_goes_straight_to_the_cooldown() {
    let policy = PollPolicy { max_attempts: 0, interval_secs: 1, cooldown_secs: 30 };
    let (sleeps, fetches, result) = run(&policy, vec![FetchOutcome::Signed(vec![1])]);
    assert_eq!(fetches, 0);
    assert_eq!(sleeps, vec![30]);
    assert!(matches!(result, Err(CoralGateError::TimeoutError(_))));
}

#[test]
fn test_start_polling_asks_for_a_fetch() {
    let (state, action) = start_polling(&PollPolicy::standard());
    assert_eq!(state, PollState::Fetching { left: 32 });
    assert!(matches!(action, PollAction::Fetch));
}

#[test]
fn test_single_steps() {
    let policy = PollPolicy::standard();
    let (state, action) = get_signed_certificate(
        &policy,
        PollState::Fetching { left: 5 },
        PollEvent::Fetched(FetchOutcome::Failed),
    );
    assert_eq!(state, PollState::Resting { left: 4 });
    assert!(matches!(action, PollAction::Sleep(1)));
    let (state, action) = get_signed_certificate(&policy, state, PollEvent::Woke);
    assert_eq!(state, PollState::Fetching { left: 4 });
    assert!(matches!(action, PollAction::Fetch));
    let (state, action) =
        get_signed_certificate(&policy, PollState::Resting { left: 0 }, PollEvent::Woke);
    assert_eq!(state, PollState::CoolingDown);
    assert!(matches!(action, PollAction::Sleep(30)));
    let (state, action) = get_signed_certificate(&policy, state, PollEvent::Woke);
    assert_eq!(state, PollState::TimedOut);
    assert!(matches!(action, PollAction::TimeOut(_)));
}

#[test]
fn test_event_that_is_not_awaited_changes_nothing() {
    let policy = PollPolicy::standard();
    let (state, action) =
        get_signed_certificate(&policy, PollState::Fetching { left: 3 }, PollEvent::Woke);
    assert_eq!(state, PollState::Fetching { left: 3 });
    assert!(matches!(action, PollAction::Wait));
    for state in [PollState::Resting { left: 2 }, PollState::CoolingDown, PollState::Issued, PollState::TimedOut] {
        let (next, action) = get_signed_certificate(
            &policy,
            state,
            PollEvent::Fetched(FetchOutcome::Signed(vec![1])),
        );
        assert_eq!(next, state);
        assert!(matches!(action, PollAction::Wait));
    }
    for state in [PollState::Issued, PollState::TimedOut] {
        let (next, action) = get_signed_certificate(&policy, state, PollEvent::Woke);
        assert_eq!(next, state);
        assert!(matches!(action, PollAction::Wait));
    }
}
