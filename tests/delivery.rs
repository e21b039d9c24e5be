use alert_relay::delivery::{next_step, Outcome, Reply, Step, MAX_ATTEMPTS};

/// Runs the delivery decisions over the replies of successive attempts.
fn run(replies: &[Reply]) -> (Outcome, Vec<u64>) {
    let mut waits = Vec::new();
    let mut attempt: u16 = 1;
    for reply in replies {
        match next_step(attempt, *reply) {
            Step::Retry { wait_secs, next_attempt } => {
                waits.push(wait_secs);
                attempt = next_attempt;
            }
            Step::Finish(outcome) => return (outcome, waits),
        }
    }
    panic!("the replies ran out");
}

#[test]
fn delivered_after_two_rate_limits() {
    let (outcome, waits) = run(&[Reply::Status(429), Reply::Status(429), Reply::Status(200)]);
    assert_eq!(outcome, Outcome::Delivered);
    assert_eq!(waits, vec![10, 30]);
}

#[test]
fn exhausted_after_three_rate_limits() {
    let (outcome, waits) = run(&[Reply::Status(429), Reply::Status(429), Reply::Status(429)]);
    assert_eq!(outcome, Outcome::Exhausted);
    assert_eq!(waits, vec![10, 30]);
}

#[test]
fn failed_at_once_on_other_status() {
    let (outcome, waits) = run(&[Reply::Status(503)]);
    assert_eq!(outcome, Outcome::Failed);
    assert!(waits.is_empty());
}

#[test]
fn failed_at_once_on_transport_error() {
    assert_eq!(next_step(1, Reply::TransportError), Step::Finish(Outcome::Failed));
    assert_eq!(next_step(2, Reply::TransportError), Step::Finish(Outcome::Failed));
}

#[test]
fn single_steps() {
    assert_eq!(next_step(1, Reply::Status(200)), Step::Finish(Outcome::Delivered));
    assert_eq!(next_step(3, Reply::Status(200)), Step::Finish(Outcome::Delivered));
    assert_eq!(next_step(1, Reply::Status(429)), Step::Retry { wait_secs: 10, next_attempt: 2 });
    assert_eq!(next_step(2, Reply::Status(429)), Step::Retry { wait_secs: 30, next_attempt: 3 });
    assert_eq!(next_step(MAX_ATTEMPTS, Reply::Status(429)), Step::Finish(Outcome::Exhausted));
    assert_eq!(next_step(2, Reply::Status(201)), Step::Finish(Outcome::Failed));
    assert_eq!(next_step(1, Reply::Status(400)), Step::Finish(Outcome::Failed));
}

#[test]
fn status_codes_stay_apart() {
    assert_eq!(Outcome::Delivered.status_code(), 200);
    assert_eq!(Outcome::Exhausted.status_code(), 429);
    assert_eq!(Outcome::Failed.status_code(), 500);
}
