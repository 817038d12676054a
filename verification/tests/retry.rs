use zuora_rest_client::retry::{classify, Attempts, Reply, ReplyClass, RetryPolicy, Verdict};

fn answer(status: u16) -> Reply {
    Reply::Answer {
        status,
        body: String::from("body"),
    }
}

fn policy() -> RetryPolicy {
    RetryPolicy {
        max_attempts: 3,
        base_delay: 200,
        max_delay: 10_000,
    }
}

#[test]
fn replies_are_classified() {
    assert_eq!(classify(&answer(200)), ReplyClass::Final);
    assert_eq!(classify(&answer(204)), ReplyClass::Final);
    assert_eq!(classify(&answer(301)), ReplyClass::Final);
    assert_eq!(classify(&answer(400)), ReplyClass::Final);
    assert_eq!(classify(&answer(401)), ReplyClass::Unauthorized);
    assert_eq!(classify(&answer(403)), ReplyClass::Final);
    assert_eq!(classify(&answer(499)), ReplyClass::Final);
    assert_eq!(classify(&answer(500)), ReplyClass::Transient);
    assert_eq!(classify(&answer(599)), ReplyClass::Transient);
    assert_eq!(classify(&answer(600)), ReplyClass::Final);
    assert_eq!(
        classify(&Reply::Failure(String::from("connection refused"))),
        ReplyClass::Transient
    );
    assert_eq!(classify(&Reply::Cancelled), ReplyClass::Cancelled);
}

#[test]
fn default_policy() {
    assert_eq!(
        RetryPolicy::new(5),
        RetryPolicy {
            max_attempts: 5,
            base_delay: 200,
            max_delay: 10_000,
        }
    );
    assert_eq!(
        Attempts::new(),
        Attempts {
            made: 0,
            reauthenticated: false,
        }
    );
}

#[test]
fn ceiling_doubles_up_to_the_cap() {
    let p = policy();
    assert_eq!(p.backoff_ceiling(0), 200);
    assert_eq!(p.backoff_ceiling(1), 200);
    assert_eq!(p.backoff_ceiling(2), 400);
    assert_eq!(p.backoff_ceiling(3), 800);
    assert_eq!(p.backoff_ceiling(4), 1600);
    assert_eq!(p.backoff_ceiling(5), 3200);
    assert_eq!(p.backoff_ceiling(6), 6400);
    assert_eq!(p.backoff_ceiling(7), 10_000);
    assert_eq!(p.backoff_ceiling(8), 10_000);
    assert_eq!(p.backoff_ceiling(usize::MAX), 10_000);
}

#[test]
fn ceiling_at_the_edges() {
    let zero_base = RetryPolicy {
        max_attempts: 3,
        base_delay: 0,
        max_delay: 100,
    };
    assert_eq!(zero_base.backoff_ceiling(1), 0);
    assert_eq!(zero_base.backoff_ceiling(usize::MAX), 0);
    let zero_cap = RetryPolicy {
        max_attempts: 3,
        base_delay: 100,
        max_delay: 0,
    };
    assert_eq!(zero_cap.backoff_ceiling(5), 0);
    let base_over_cap = RetryPolicy {
        max_attempts: 3,
        base_delay: 500,
        max_delay: 300,
    };
    assert_eq!(base_over_cap.backoff_ceiling(1), 300);
    assert_eq!(base_over_cap.backoff_ceiling(9), 300);
    let huge = RetryPolicy {
        max_attempts: 3,
        base_delay: u64::MAX / 2 + 1,
        max_delay: u64::MAX,
    };
    assert_eq!(huge.backoff_ceiling(1), u64::MAX / 2 + 1);
    assert_eq!(huge.backoff_ceiling(2), u64::MAX);
    let odd = RetryPolicy {
        max_attempts: 3,
        base_delay: 3,
        max_delay: 7,
    };
    assert_eq!(odd.backoff_ceiling(2), 6);
    assert_eq!(odd.backoff_ceiling(3), 7);
}

#[test]
fn wait_lies_in_the_upper_half_of_the_range() {
    let p = policy();
    assert_eq!(p.backoff(1, 0), 100);
    assert_eq!(p.backoff(1, 7), 107);
    assert_eq!(p.backoff(1, 100), 200);
    assert_eq!(p.backoff(1, 101), 100);
    assert_eq!(p.backoff(2, 0), 200);
    assert_eq!(p.backoff(2, 200), 400);
    assert_eq!(p.backoff(7, 12_345), 5000 + 12_345 % 5001);
    assert_eq!(p.backoff(7, u64::MAX), 5000 + u64::MAX % 5001);
    let zero = RetryPolicy {
        max_attempts: 3,
        base_delay: 0,
        max_delay: 0,
    };
    assert_eq!(zero.backoff(4, 99), 0);
    let widest = RetryPolicy {
        max_attempts: 3,
        base_delay: u64::MAX,
        max_delay: u64::MAX,
    };
    let low = u64::MAX / 2;
    assert_eq!(widest.backoff(1, 5), low + 5);
}

#[test]
fn transient_failures_are_retried_until_the_limit() {
    let p = policy();
    let mut attempts = Attempts::new();
    assert_eq!(
        p.judge(&mut attempts, &answer(503), 0),
        Verdict::Retry { delay: 100 }
    );
    assert_eq!(attempts.made, 1);
    assert_eq!(
        p.judge(&mut attempts, &Reply::Failure(String::from("timeout")), 3),
        Verdict::Retry { delay: 203 }
    );
    assert_eq!(attempts.made, 2);
    assert_eq!(p.judge(&mut attempts, &answer(500), 0), Verdict::Exhausted);
    assert_eq!(attempts.made, 3);
    assert_eq!(p.judge(&mut attempts, &answer(500), 0), Verdict::Exhausted);
    assert_eq!(attempts.made, 3);
}

#[test]
fn final_answers_are_delivered_at_once() {
    let p = policy();
    for status in [200u16, 201, 302, 400, 404, 422, 600] {
        let mut attempts = Attempts::new();
        assert_eq!(p.judge(&mut attempts, &answer(status), 9), Verdict::Deliver);
        assert_eq!(
            attempts,
            Attempts {
                made: 1,
                reauthenticated: false,
            }
        );
    }
}

#[test]
fn first_unauthorized_asks_for_a_token_and_is_not_counted() {
    let p = policy();
    let mut attempts = Attempts {
        made: 2,
        reauthenticated: false,
    };
    assert_eq!(
        p.judge(&mut attempts, &answer(401), 0),
        Verdict::Reauthenticate
    );
    assert_eq!(
        attempts,
        Attempts {
            made: 2,
            reauthenticated: true,
        }
    );
    assert_eq!(p.judge(&mut attempts, &answer(401), 0), Verdict::Deliver);
    assert_eq!(
        attempts,
        Attempts {
            made: 3,
            reauthenticated: true,
        }
    );
}

#[test]
fn cancellation_stops_without_counting() {
    let p = policy();
    let mut attempts = Attempts {
        made: 1,
        reauthenticated: false,
    };
    assert_eq!(
        p.judge(&mut attempts, &Reply::Cancelled, 0),
        Verdict::Cancelled
    );
    assert_eq!(
        attempts,
        Attempts {
            made: 1,
            reauthenticated: false,
        }
    );
}

#[test]
fn one_attempt_is_made_even_where_none_is_allowed() {
    for max_attempts in [0usize, 1] {
        let p = RetryPolicy {
            max_attempts,
            base_delay: 200,
            max_delay: 10_000,
        };
        let mut attempts = Attempts::new();
        assert_eq!(p.judge(&mut attempts, &answer(503), 0), Verdict::Exhausted);
        let mut attempts = Attempts::new();
        assert_eq!(p.judge(&mut attempts, &answer(200), 0), Verdict::Deliver);
        assert_eq!(attempts.made, max_attempts);
    }
}
