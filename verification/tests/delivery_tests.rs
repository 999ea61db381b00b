use flashduty_sdk::delivery::{
    classify_attempt, classify_response, delivery_step, drain_deliveries, parse_api_response,
    run_delivery, AttemptOutcome, DeliveryStep, MAX_ATTEMPTS,
};
use flashduty_sdk::models::{AlertEvent, EventStatus};

fn plain_event(title: &str) -> AlertEvent {
    AlertEvent {
        integration_key: "k".to_string(),
        event_status: EventStatus::Warning,
        title_rule: title.to_string(),
        alert_key: None,
        description: None,
        labels: None,
        images: None,
    }
}

#[test]
fn non_2xx_status_classifies_as_http_failure() {
    let r = classify_response(500, "whatever");
    assert!(matches!(r, AttemptOutcome::HttpFailure { status: 500 }));
    let r = classify_response(404, "{\"error\":\"\"}");
    assert!(matches!(r, AttemptOutcome::HttpFailure { status: 404 }));
    let r = classify_response(199, "{}");
    assert!(matches!(r, AttemptOutcome::HttpFailure { status: 199 }));
    let r = classify_response(300, "{}");
    assert!(matches!(r, AttemptOutcome::HttpFailure { status: 300 }));
}

#[test]
fn malformed_2xx_body_classifies_as_malformed() {
    assert!(matches!(
        classify_response(200, "not json"),
        AttemptOutcome::MalformedResponse
    ));
    assert!(matches!(
        classify_response(200, "[1,2,3]"),
        AttemptOutcome::MalformedResponse
    ));
    // A member of the wrong type is not the expected shape.
    assert!(matches!(
        classify_response(200, "{\"error\":5}"),
        AttemptOutcome::MalformedResponse
    ));
}

#[test]
fn empty_error_on_2xx_is_a_delivery() {
    assert!(matches!(
        classify_response(200, "{\"error\":\"\",\"message\":\"ok\"}"),
        AttemptOutcome::Delivered
    ));
    // Absent members read as empty strings.
    assert!(matches!(
        classify_response(204, "{}"),
        AttemptOutcome::Delivered
    ));
    assert!(matches!(
        classify_response(299, "{\"message\":\"fine\"}"),
        AttemptOutcome::Delivered
    ));
}

#[test]
fn reported_error_on_2xx_is_a_failure() {
    let r = classify_response(200, "{\"error\":\"quota exceeded\"}");
    assert!(matches!(r, AttemptOutcome::ApiFailure { error } if error == "quota exceeded"));
}

#[test]
fn missing_response_classifies_as_transport_failure() {
    assert!(matches!(
        classify_attempt(None),
        AttemptOutcome::TransportFailure
    ));
    let r = classify_attempt(Some((502, "bad gateway".to_string())));
    assert!(matches!(r, AttemptOutcome::HttpFailure { status: 502 }));
}

#[test]
fn parse_api_response_reads_both_members() {
    let r = parse_api_response("{\"error\":\"x\",\"message\":\"y\"}").unwrap();
    assert_eq!(r.error, "x");
    assert_eq!(r.message, "y");
    let r = parse_api_response("{}").unwrap();
    assert_eq!(r.error, "");
    assert_eq!(r.message, "");
    assert!(parse_api_response("3").is_none());
    assert!(parse_api_response("{\"message\":[]}").is_none());
}

#[test]
fn backoff_is_one_then_two_seconds_and_never_after_the_last_attempt() {
    let failure = AttemptOutcome::HttpFailure { status: 500 };
    assert_eq!(
        delivery_step(0, &failure),
        DeliveryStep::RetryAfter { sleep_secs: 1 }
    );
    assert_eq!(
        delivery_step(1, &failure),
        DeliveryStep::RetryAfter { sleep_secs: 2 }
    );
    assert_eq!(
        delivery_step(2, &failure),
        DeliveryStep::Finished { delivered: false }
    );
}

#[test]
fn success_halts_retries_immediately() {
    assert_eq!(
        delivery_step(0, &AttemptOutcome::Delivered),
        DeliveryStep::Finished { delivered: true }
    );
    assert_eq!(
        delivery_step(2, &AttemptOutcome::Delivered),
        DeliveryStep::Finished { delivered: true }
    );
    let script = vec![
        AttemptOutcome::Delivered,
        AttemptOutcome::HttpFailure { status: 500 },
        AttemptOutcome::HttpFailure { status: 500 },
    ];
    let report = run_delivery(&script);
    assert_eq!(report.attempts, 1);
    assert!(report.delivered);
    assert_eq!(report.total_sleep_secs, 0);
}

#[test]
fn api_error_retries_exactly_like_http_failure() {
    let api = AttemptOutcome::ApiFailure {
        error: "boom".to_string(),
    };
    let http = AttemptOutcome::HttpFailure { status: 500 };
    for attempt in 0..MAX_ATTEMPTS {
        assert_eq!(delivery_step(attempt, &api), delivery_step(attempt, &http));
    }
    let script = vec![
        AttemptOutcome::ApiFailure {
            error: "boom".to_string(),
        },
        AttemptOutcome::Delivered,
        AttemptOutcome::Delivered,
    ];
    let report = run_delivery(&script);
    assert_eq!(report.attempts, 2);
    assert!(report.delivered);
    assert_eq!(report.total_sleep_secs, 1);
}

#[test]
fn three_http_500s_drop_the_event_after_three_attempts() {
    let script = vec![
        AttemptOutcome::HttpFailure { status: 500 },
        AttemptOutcome::HttpFailure { status: 500 },
        AttemptOutcome::HttpFailure { status: 500 },
    ];
    let report = run_delivery(&script);
    assert_eq!(report.attempts, 3);
    assert!(!report.delivered);
    // Worst case: 1 s + 2 s of backoff, and no sleep after the final attempt.
    assert_eq!(report.total_sleep_secs, 3);
}

#[test]
fn transport_failures_exhaust_the_same_budget() {
    let script = vec![
        AttemptOutcome::TransportFailure,
        AttemptOutcome::TransportFailure,
        AttemptOutcome::MalformedResponse,
    ];
    let report = run_delivery(&script);
    assert_eq!(report.attempts, 3);
    assert!(!report.delivered);
    assert_eq!(report.total_sleep_secs, 3);
}

#[test]
fn a_drain_attempts_every_event_and_moves_past_dropped_ones() {
    let events = vec![plain_event("a"), plain_event("b"), plain_event("c")];
    let scripts = vec![
        vec![
            AttemptOutcome::HttpFailure { status: 500 },
            AttemptOutcome::HttpFailure { status: 500 },
            AttemptOutcome::HttpFailure { status: 500 },
        ],
        vec![
            AttemptOutcome::Delivered,
            AttemptOutcome::Delivered,
            AttemptOutcome::Delivered,
        ],
        vec![
            AttemptOutcome::TransportFailure,
            AttemptOutcome::Delivered,
            AttemptOutcome::Delivered,
        ],
    ];
    let reports = drain_deliveries(&events, &scripts);
    assert_eq!(reports.len(), 3);
    assert!(reports.iter().all(|r| r.attempts >= 1));
    // The dropped first event does not stop the worker: the later events are
    // still delivered.
    assert!(!reports[0].delivered);
    assert_eq!(reports[0].attempts, 3);
    assert!(reports[1].delivered);
    assert_eq!(reports[1].attempts, 1);
    assert!(reports[2].delivered);
    assert_eq!(reports[2].attempts, 2);
}
