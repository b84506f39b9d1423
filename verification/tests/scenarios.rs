//! End-to-end scenarios through the pipeline.

use secureapis::RequestData;
use secureapis::SecurityConfig;
use secureapis::SecurityError;
use secureapis::SecurityLayer;
use secureapis::UIState;

fn req(method: &str, uri: &str, headers: Vec<(&str, &str)>) -> RequestData {
    RequestData::new(
        method.to_string(),
        uri.to_string(),
        headers.into_iter().map(|(n, v)| (n.to_string(), v.to_string())).collect(),
    )
}

fn layer_with_sink(config: SecurityConfig) -> SecurityLayer {
    SecurityLayer::new(config).with_ui_state(UIState::new(1024))
}

#[test]
fn admit_benign_request() {
    let mut layer = layer_with_sink(SecurityConfig::default());
    let r = req(
        "GET",
        "/api/v1/users/42",
        vec![("user-agent", "curl/8"), ("x-forwarded-for", "10.0.0.1")],
    );
    let ctx = layer.process_request(&r).expect("benign request is admitted");
    assert_eq!(ctx.threat_score, 0);
    assert_eq!(ctx.client_ip, "10.0.0.1");
    assert!(!ctx.authenticated);
    assert!(ctx.user_id.is_none());
    let sink = layer.ui_state.as_ref().unwrap();
    let (total, blocked, _, _, _) = sink.snapshot_counters();
    assert_eq!(total, 1);
    assert_eq!(blocked, 0);
    let recent = sink.recent(10);
    assert_eq!(recent.len(), 1);
    assert_eq!(recent[0].status_code, 200);
    assert!(!recent[0].blocked);
    assert_eq!(recent[0].threat_score, 0);
    assert_eq!(recent[0].method, "GET");
    assert_eq!(recent[0].path, "/api/v1/users/42");
    assert_eq!(recent[0].user_agent, "curl/8");
}

#[test]
fn block_path_traversal() {
    let mut layer = layer_with_sink(SecurityConfig::default());
    let r = req("GET", "/files?p=../../../etc/passwd", vec![]);
    let err = layer.process_request(&r).expect_err("traversal blocks");
    match &err {
        SecurityError::ThreatDetected { threat_type, .. } => {
            assert_eq!(threat_type, "Suspicious request pattern");
        }
        other => panic!("expected a threat rejection, got {:?}", other),
    }
    assert_eq!(err.status_code(), 403);
    let sink = layer.ui_state.as_ref().unwrap();
    let recent = sink.recent(1);
    assert_eq!(recent.len(), 1);
    assert!(recent[0].blocked);
    assert_eq!(recent[0].status_code, 403);
    assert_eq!(recent[0].threat_score, 40);
    assert_eq!(recent[0].reason.as_deref(), Some("Threat detected"));
    assert_eq!(recent[0].path, "/files");
}

#[test]
fn scanner_user_agent_scores_without_blocking() {
    let mut layer = layer_with_sink(SecurityConfig::default());
    let r = req("GET", "/", vec![("user-agent", "sqlmap/1.7")]);
    let ctx = layer.process_request(&r).expect("no category matched, 70 < 100");
    assert_eq!(ctx.threat_score, 70);
    let sink = layer.ui_state.as_ref().unwrap();
    let recent = sink.recent(1);
    assert!(!recent[0].blocked);
    assert_eq!(recent[0].threat_score, 70);
}

#[test]
fn block_sql_injection_combo() {
    let mut layer = layer_with_sink(SecurityConfig::default());
    let r = req("GET", "/search?q=union+select+*+from+users", vec![]);
    let err = layer.process_request(&r).expect_err("sql category at 60 blocks");
    assert!(matches!(err, SecurityError::ThreatDetected { .. }));
    let sink = layer.ui_state.as_ref().unwrap();
    let recent = sink.recent(1);
    assert!(recent[0].blocked);
    assert_eq!(recent[0].threat_score, 60);
}

#[test]
fn rate_limit_budget_is_enforced() {
    let mut config = SecurityConfig::default();
    config.rate_limit.max_requests = 3;
    let mut layer = layer_with_sink(config);
    let r = req("GET", "/", vec![("x-forwarded-for", "10.9.9.9")]);
    for _ in 0..3 {
        layer.process_request(&r).expect("within budget");
    }
    // The fourth request carries a traversal payload: it is rejected by
    // the rate limiter alone, so the later stages never see it.
    let over = req(
        "GET",
        "/files?p=../../../etc/passwd",
        vec![("x-forwarded-for", "10.9.9.9")],
    );
    let err = layer.process_request(&over).expect_err("budget spent");
    match err {
        SecurityError::RateLimitExceeded { retry_after } => assert_eq!(retry_after, 60),
        other => panic!("expected a rate-limit rejection, got {:?}", other),
    }
    let sink = layer.ui_state.as_ref().unwrap();
    let (total, blocked, rate_limited, _, _) = sink.snapshot_counters();
    assert_eq!(total, 4);
    assert_eq!(blocked, 1);
    assert_eq!(rate_limited, 1);
    let recent = sink.recent(1);
    assert_eq!(recent[0].status_code, 429);
    assert_eq!(recent[0].threat_score, 0);
    assert_eq!(recent[0].reason.as_deref(), Some("Rate limit exceeded"));
}

#[test]
fn rate_limited_client_stays_rejected() {
    let mut config = SecurityConfig::default();
    config.rate_limit.max_requests = 1;
    let mut layer = layer_with_sink(config);
    let r = req("GET", "/", vec![("x-forwarded-for", "10.0.0.7")]);
    layer.process_request(&r).expect("first admission");
    for _ in 0..2 {
        let err = layer.process_request(&r).expect_err("budget spent");
        assert!(matches!(err, SecurityError::RateLimitExceeded { retry_after: 60 }));
    }
    let sink = layer.ui_state.as_ref().unwrap();
    let (total, blocked, rate_limited, _, _) = sink.snapshot_counters();
    assert_eq!((total, blocked, rate_limited), (3, 2, 2));
}

#[test]
fn anonymous_traffic_passes_when_auth_is_optional() {
    let mut config = SecurityConfig::default();
    config.auth.enabled = true;
    config.auth.require_auth = false;
    let mut layer = layer_with_sink(config);
    let r = req("GET", "/", vec![]);
    let ctx = layer.process_request(&r).expect("anonymous traffic passes");
    assert!(ctx.user_id.is_none());
    assert!(!ctx.authenticated);
}

#[test]
fn all_stages_disabled_admits_anything() {
    let mut config = SecurityConfig::default();
    config.rate_limit.enabled = false;
    config.auth.enabled = false;
    config.validation.enabled = false;
    config.threat_detection.enabled = false;
    let mut layer = layer_with_sink(config);
    let r = req("GET", "/files?p=../../../etc/passwd", vec![]);
    let ctx = layer.process_request(&r).expect("no stage can reject");
    assert_eq!(ctx.threat_score, 0);
    let sink = layer.ui_state.as_ref().unwrap();
    let (total, blocked, _, _, _) = sink.snapshot_counters();
    assert_eq!((total, blocked), (1, 0));
    let recent = sink.recent(10);
    assert_eq!(recent.len(), 1);
    assert!(!recent[0].blocked);
}

#[test]
fn counters_split_into_admitted_and_blocked() {
    let mut layer = layer_with_sink(SecurityConfig::default());
    let benign = req("GET", "/", vec![]);
    let hostile = req("GET", "/files?p=../../../etc/passwd", vec![]);
    let mut admitted: u64 = 0;
    for i in 0..10 {
        let r = if i % 3 == 0 { &hostile } else { &benign };
        if layer.process_request(r).is_ok() {
            admitted += 1;
        }
    }
    let sink = layer.ui_state.as_ref().unwrap();
    let (total, blocked, _, _, _) = sink.snapshot_counters();
    assert_eq!(total, 10);
    assert_eq!(total, admitted + blocked);
}

#[test]
fn first_failing_stage_counts_the_rejection() {
    let mut layer = layer_with_sink(SecurityConfig::default());
    let hostile = req("GET", "/files?p=../../../etc/passwd", vec![]);
    let before = layer.ui_state.as_ref().unwrap().snapshot_counters();
    layer.process_request(&hostile).expect_err("blocked by the scorer");
    let after = layer.ui_state.as_ref().unwrap().snapshot_counters();
    assert_eq!(after.0, before.0 + 1);
    assert_eq!(after.1, before.1 + 1);
    assert_eq!(after.2, before.2);
    assert_eq!(after.3, before.3);
    assert_eq!(after.4, before.4);
}

#[test]
fn scoring_is_repeatable() {
    let r = req("GET", "/search?q=union+select+1", vec![("user-agent", "nikto")]);
    let mut first: Option<u32> = None;
    for _ in 0..2 {
        let mut layer = layer_with_sink(SecurityConfig::default());
        let err = layer.process_request(&r);
        let score = layer.ui_state.as_ref().unwrap().recent(1)[0].threat_score;
        assert!(err.is_err());
        match first {
            None => first = Some(score),
            Some(s) => assert_eq!(s, score),
        }
    }
    assert_eq!(first, Some(130));
}

#[test]
fn request_identifiers_are_hyphenated_uuids() {
    let mut layer = layer_with_sink(SecurityConfig::default());
    let ctx = layer.process_request(&req("GET", "/", vec![])).unwrap();
    assert_eq!(ctx.request_id.len(), 36);
    assert_eq!(ctx.request_id.chars().filter(|c| *c == '-').count(), 4);
    let rec_id = &layer.ui_state.as_ref().unwrap().recent(1)[0].id;
    assert_eq!(rec_id.len(), 36);
}
