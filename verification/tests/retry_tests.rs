use acd::retry::{backoff_cap_ms, draw_backoff_ms, Directive, Observed, Orchestrator, MAXIMUM_RETRY};
use acd::Error;

#[test]
fn transport_failures_make_exactly_five_attempts() {
    let (mut orch, first) = Orchestrator::start(false);
    assert!(matches!(first, Directive::Resend { backoff_cap_ms: 0 }));
    let mut sends: u32 = 1;
    let mut caps: Vec<u64> = Vec::new();
    loop {
        match orch.observe(Observed::Transport("connection reset".to_string())) {
            Directive::Resend { backoff_cap_ms } => {
                sends += 1;
                caps.push(backoff_cap_ms);
            }
            Directive::Abort(e) => {
                assert!(matches!(e, Error::Transport(_)));
                break;
            }
            other => panic!("unexpected directive {:?}", other),
        }
    }
    assert_eq!(sends, MAXIMUM_RETRY);
    assert_eq!(caps, vec![1000, 2000, 4000, 8000]);
    for w in caps.windows(2) {
        assert!(w[0] < w[1]);
    }
}

#[test]
fn server_errors_retry_like_transport_failures() {
    let (mut orch, _) = Orchestrator::start(true);
    let mut sends: u32 = 1;
    loop {
        match orch.observe(Observed::Response { status: 503, body: b"oops".to_vec() }) {
            Directive::Resend { .. } => sends += 1,
            Directive::Abort(e) => {
                match e {
                    Error::ServerError { status, body } => {
                        assert_eq!(status, 503);
                        assert_eq!(body, b"oops".to_vec());
                    }
                    other => panic!("unexpected error {:?}", other),
                }
                break;
            }
            other => panic!("unexpected directive {:?}", other),
        }
    }
    assert_eq!(sends, MAXIMUM_RETRY);
}

#[test]
fn always_expired_token_refreshes_exactly_once() {
    let (mut orch, _) = Orchestrator::start(true);
    let d1 = orch.observe(Observed::TokenExpired);
    assert!(matches!(d1, Directive::Reauthorize));
    let d2 = orch.refresh_succeeded();
    assert!(matches!(d2, Directive::Resend { backoff_cap_ms: 0 }));
    let d3 = orch.observe(Observed::TokenExpired);
    assert!(matches!(d3, Directive::Abort(Error::ExpiredToken)));
}

#[test]
fn refresh_restores_the_retry_budget() {
    let (mut orch, _) = Orchestrator::start(true);
    for _ in 0..3 {
        let d = orch.observe(Observed::Transport("down".to_string()));
        assert!(matches!(d, Directive::Resend { .. }));
    }
    let d = orch.observe(Observed::TokenExpired);
    assert!(matches!(d, Directive::Reauthorize));
    orch.refresh_succeeded();
    let mut sends: u32 = 1;
    loop {
        match orch.observe(Observed::Transport("down".to_string())) {
            Directive::Resend { .. } => sends += 1,
            Directive::Abort(_) => break,
            other => panic!("unexpected directive {:?}", other),
        }
    }
    assert_eq!(sends, MAXIMUM_RETRY);
}

#[test]
fn expired_token_without_auth_is_a_protocol_violation() {
    let (mut orch, _) = Orchestrator::start(false);
    let d = orch.observe(Observed::TokenExpired);
    assert!(matches!(d, Directive::Abort(Error::ProtocolViolation)));
}

#[test]
fn failed_refresh_is_terminal() {
    let (mut orch, _) = Orchestrator::start(true);
    assert!(matches!(orch.observe(Observed::TokenExpired), Directive::Reauthorize));
    let d = orch.refresh_failed(Error::AuthFailure { status: 401, body: Vec::new() });
    assert!(matches!(d, Directive::Abort(Error::AuthFailure { status: 401, .. })));
}

#[test]
fn non_retryable_statuses_are_delivered() {
    for status in [200u16, 201, 404, 409, 400] {
        let (mut orch, _) = Orchestrator::start(true);
        match orch.observe(Observed::Response { status, body: b"x".to_vec() }) {
            Directive::Deliver { status: s, body } => {
                assert_eq!(s, status);
                assert_eq!(body, b"x".to_vec());
            }
            other => panic!("unexpected directive {:?}", other),
        }
    }
}

#[test]
fn backoff_doubles_up_to_the_cap() {
    let expected: [u64; 10] = [
        1000, 2000, 4000, 8000, 16000, 32000, 64000, 128000, 256000, 256000,
    ];
    for (i, want) in expected.iter().enumerate() {
        assert_eq!(backoff_cap_ms(i as u32 + 1), *want);
    }
}

#[test]
fn drawn_backoff_stays_below_the_cap() {
    for cap in [1u64, 2, 1000, 256000] {
        for _ in 0..50 {
            assert!(draw_backoff_ms(cap) < cap);
        }
    }
}
