use telegram_bot::request_client::{
    backoff_delay, backoff_limit, decode_body, endpoint_url, retry_step, AttemptOutcome,
    RequestClientError, RetryStep,
};

/// Runs the retry policy over scripted outcomes; returns the final step and
/// the number of attempts made.
fn run(outcomes: Vec<AttemptOutcome>, max_retries: u8) -> (RetryStep, usize) {
    if max_retries == 0 {
        return (RetryStep::Fail(RequestClientError::TimeOut), 0);
    }
    let mut attempt: u8 = 0;
    let mut made = 0;
    let mut outcomes = outcomes.into_iter();
    loop {
        let outcome = outcomes.next().expect("script too short");
        made += 1;
        match retry_step(attempt, max_retries, outcome) {
            RetryStep::Retry { next_attempt, backoff_limit } => {
                assert_eq!(backoff_limit, 1u64 << attempt);
                attempt = next_attempt;
            }
            done => return (done, made),
        }
    }
}

#[test]
fn timeouts_then_success_take_k_plus_one_attempts() {
    for k in 0..5usize {
        let mut script: Vec<AttemptOutcome> = (0..k).map(|_| AttemptOutcome::TimedOut).collect();
        script.push(AttemptOutcome::Response(200));
        let (step, made) = run(script, 5);
        assert!(matches!(step, RetryStep::Succeeded));
        assert_eq!(made, k + 1);
    }
}

#[test]
fn always_timing_out_fails_after_max_attempts() {
    let script: Vec<AttemptOutcome> = (0..10).map(|_| AttemptOutcome::TimedOut).collect();
    let (step, made) = run(script, 4);
    assert!(matches!(step, RetryStep::Fail(RequestClientError::TimeOut)));
    assert_eq!(made, 4);
}

#[test]
fn status_error_is_not_retried() {
    let (step, made) = run(vec![AttemptOutcome::TimedOut, AttemptOutcome::Response(403)], 5);
    assert!(matches!(step, RetryStep::Fail(RequestClientError::Status(403))));
    assert_eq!(made, 2);
}

#[test]
fn transport_error_is_not_retried() {
    let (step, made) = run(vec![AttemptOutcome::Failed("refused".to_string())], 5);
    match step {
        RetryStep::Fail(RequestClientError::Reqwest(m)) => assert_eq!(m, "refused"),
        other => panic!("unexpected {:?}", other),
    }
    assert_eq!(made, 1);
}

#[test]
fn backoff_limits_double_and_saturate() {
    assert_eq!(backoff_limit(0), 1);
    assert_eq!(backoff_limit(3), 8);
    assert_eq!(backoff_limit(63), 1u64 << 63);
    assert_eq!(backoff_limit(64), u64::MAX);
    assert_eq!(backoff_limit(255), u64::MAX);
}

#[test]
fn backoff_delay_stays_below_limit() {
    for attempt in 0..6u8 {
        for _ in 0..50 {
            assert!(backoff_delay(attempt) < (1u64 << attempt));
        }
    }
    assert_eq!(backoff_delay(0), 0);
}

#[test]
fn empty_body_has_no_payload() {
    assert!(matches!(decode_body(""), Ok(None)));
}

#[test]
fn json_body_is_decoded() {
    match decode_body("{\"token\":\"abc\"}") {
        Ok(Some(v)) => assert_eq!(v["token"], "abc"),
        other => panic!("unexpected {:?}", other),
    }
}

#[test]
fn malformed_body_is_a_json_error() {
    assert!(matches!(decode_body("not json"), Err(RequestClientError::JsonParse(_))));
}

#[test]
fn endpoint_joins_with_slash() {
    assert_eq!(endpoint_url("http://localhost:8080/api/v1", "evento"), "http://localhost:8080/api/v1/evento");
}
