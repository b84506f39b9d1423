//! Unit tests of the individual components.

use secureapis::AuthToken;
use secureapis::RequestData;
use secureapis::SecurityConfig;
use secureapis::SecurityContext;
use secureapis::SecurityError;
use secureapis::SecurityLayer;
use secureapis::ThreatSeverity;
use secureapis::UIState;
use secureapis::rate_limit::RateLimiter;
use secureapis::request::extract_client_ip;
use secureapis::request::extract_path;
use secureapis::request::extract_user_agent;
use secureapis::scorer::detect_threats;
use secureapis::sink::RequestLog;
use secureapis::text::chars_of;
use secureapis::text::contains_chars;
use secureapis::text::find_char_vec;
use secureapis::text::lower_vec;
use secureapis::text::u64_to_string;
use secureapis::RateLimitConfig;

fn req(method: &str, uri: &str, headers: Vec<(&str, &str)>) -> RequestData {
    RequestData::new(
        method.to_string(),
        uri.to_string(),
        headers.into_iter().map(|(n, v)| (n.to_string(), v.to_string())).collect(),
    )
}

fn record(id: &str) -> RequestLog {
    RequestLog {
        id: id.to_string(),
        timestamp: 0,
        method: "GET".to_string(),
        path: "/".to_string(),
        client_ip: "unknown".to_string(),
        user_agent: "unknown".to_string(),
        user_id: None,
        status_code: 200,
        threat_score: 0,
        blocked: false,
        reason: None,
        headers: Vec::new(),
    }
}

#[test]
fn context_accumulates_and_saturates() {
    let mut ctx = SecurityContext::new("id".to_string(), "1.2.3.4".to_string());
    assert_eq!(ctx.threat_score, 0);
    ctx.add_threat_score(100);
    assert_eq!(ctx.threat_score, 100);
    assert!(!ctx.is_high_risk());
    ctx.add_threat_score(1);
    assert!(ctx.is_high_risk());
    ctx.add_threat_score(u32::MAX);
    assert_eq!(ctx.threat_score, u32::MAX);
}

#[test]
fn context_with_user_sets_identity() {
    let ctx = SecurityContext::new("id".to_string(), "1.2.3.4".to_string())
        .with_user("alice".to_string(), vec!["admin".to_string()]);
    assert_eq!(ctx.user_id.as_deref(), Some("alice"));
    assert!(ctx.authenticated);
    assert_eq!(ctx.roles, vec!["admin".to_string()]);
}

#[test]
fn status_codes_follow_the_taxonomy() {
    assert_eq!(SecurityError::RateLimitExceeded { retry_after: 60 }.status_code(), 429);
    assert_eq!(SecurityError::AuthenticationFailed("x".into()).status_code(), 401);
    assert_eq!(SecurityError::AuthorizationFailed("x".into()).status_code(), 403);
    assert_eq!(
        SecurityError::InvalidInput { reason: "x".into(), field: None }.status_code(),
        400
    );
    assert_eq!(
        SecurityError::ThreatDetected {
            threat_type: "x".into(),
            severity: ThreatSeverity::High
        }
        .status_code(),
        403
    );
    assert_eq!(SecurityError::CorsViolation("x".into()).status_code(), 403);
    assert_eq!(SecurityError::CsrfViolation("x".into()).status_code(), 403);
    assert_eq!(SecurityError::HttpsRequired.status_code(), 403);
    assert_eq!(SecurityError::ConfigError("x".into()).status_code(), 500);
    assert_eq!(SecurityError::InternalError("x".into()).status_code(), 500);
    assert_eq!(SecurityError::ReplayDetected("x".into()).status_code(), 500);
}

#[test]
fn messages_are_rendered() {
    assert_eq!(
        SecurityError::RateLimitExceeded { retry_after: 60 }.message(),
        "Rate limit exceeded, retry after 60 seconds"
    );
    assert_eq!(
        SecurityError::AuthenticationFailed("token expired".into()).message(),
        "Authentication failed: token expired"
    );
    assert_eq!(
        SecurityError::InvalidInput { reason: "too long".into(), field: Some("q".into()) }
            .message(),
        "Invalid input in field 'q': too long"
    );
    assert_eq!(
        SecurityError::InvalidInput { reason: "bad".into(), field: None }.message(),
        "Invalid input: bad"
    );
    assert_eq!(
        SecurityError::ThreatDetected {
            threat_type: "odd".into(),
            severity: ThreatSeverity::High
        }
        .message(),
        "Threat detected: odd (severity: High)"
    );
    assert_eq!(SecurityError::HttpsRequired.message(), "HTTPS connection required");
}

#[test]
fn decimal_rendering_is_exact() {
    assert_eq!(u64_to_string(0), "0");
    assert_eq!(u64_to_string(7), "7");
    assert_eq!(u64_to_string(60), "60");
    assert_eq!(u64_to_string(1234567890), "1234567890");
    assert_eq!(u64_to_string(u64::MAX), "18446744073709551615");
}

#[test]
fn substring_search_and_lowering() {
    let hay = chars_of("Hello World");
    assert!(contains_chars(&hay, &chars_of("lo W")));
    assert!(!contains_chars(&hay, &chars_of("lo w")));
    let lowered = lower_vec(&hay);
    assert_eq!(lowered.iter().collect::<String>(), "hello world");
    assert!(contains_chars(&lowered, &chars_of("lo w")));
    assert!(contains_chars(&hay, &chars_of("")));
    assert_eq!(find_char_vec(&chars_of("a,b"), ','), 1);
    assert_eq!(find_char_vec(&chars_of("ab"), ','), 2);
}

#[test]
fn client_ip_priority() {
    let forwarded = req(
        "GET",
        "/",
        vec![("x-forwarded-for", "1.2.3.4, 5.6.7.8"), ("x-real-ip", "9.9.9.9")],
    );
    assert_eq!(extract_client_ip(&forwarded), "1.2.3.4");
    let real = req("GET", "/", vec![("x-real-ip", "9.9.9.9, 1.1.1.1")]);
    assert_eq!(extract_client_ip(&real), "9.9.9.9, 1.1.1.1");
    let bare = req("GET", "/", vec![]);
    assert_eq!(extract_client_ip(&bare), "unknown");
}

#[test]
fn path_and_user_agent_extraction() {
    assert_eq!(extract_path(&req("GET", "/a/b?q=1", vec![])), "/a/b");
    assert_eq!(extract_path(&req("GET", "/a/b", vec![])), "/a/b");
    assert_eq!(extract_user_agent(&req("GET", "/", vec![("user-agent", "curl")])), "curl");
    assert_eq!(extract_user_agent(&req("GET", "/", vec![])), "unknown");
}

#[test]
fn rate_limiter_counts_per_client() {
    let mut limiter = RateLimiter::new(RateLimitConfig { enabled: true, max_requests: 2 });
    let a = "a".to_string();
    let b = "b".to_string();
    assert!(limiter.check(&a));
    assert!(limiter.check(&a));
    assert!(!limiter.check(&a));
    assert!(limiter.check(&b));
    let mut empty = RateLimiter::new(RateLimitConfig { enabled: true, max_requests: 0 });
    assert!(!empty.check(&a));
}

#[test]
fn authentication_outcomes() {
    let mut config = SecurityConfig::default();
    config.auth.require_auth = true;
    config.auth.tokens = vec![AuthToken {
        token: "secret".to_string(),
        user_id: "alice".to_string(),
        roles: vec!["admin".to_string()],
    }];
    let mut layer = SecurityLayer::new(config);

    let granted = layer
        .process_request(&req("GET", "/", vec![("authorization", "secret")]))
        .expect("configured credential grants a principal");
    assert_eq!(granted.user_id.as_deref(), Some("alice"));
    assert!(granted.authenticated);
    assert_eq!(granted.roles, vec!["admin".to_string()]);

    let missing = layer.process_request(&req("GET", "/", vec![])).expect_err("required");
    match missing {
        SecurityError::AuthenticationFailed(msg) => assert_eq!(msg, "Authentication required"),
        other => panic!("expected an authentication rejection, got {:?}", other),
    }

    let invalid = layer
        .process_request(&req("GET", "/", vec![("authorization", "wrong")]))
        .expect_err("unknown credential");
    match invalid {
        SecurityError::AuthenticationFailed(msg) => assert_eq!(msg, "Invalid credentials"),
        other => panic!("expected an authentication rejection, got {:?}", other),
    }
}

#[test]
fn invalid_credentials_reject_even_when_auth_is_optional() {
    let mut config = SecurityConfig::default();
    config.auth.require_auth = false;
    let mut layer = SecurityLayer::new(config).with_ui_state(UIState::new(8));
    let err = layer
        .process_request(&req("GET", "/", vec![("authorization", "wrong")]))
        .expect_err("invalid credentials reject regardless of the policy");
    assert!(matches!(err, SecurityError::AuthenticationFailed(_)));
    let (_, blocked, _, auth_failures, _) =
        layer.ui_state.as_ref().unwrap().snapshot_counters();
    assert_eq!((blocked, auth_failures), (1, 1));
}

#[test]
fn validation_rejects_malformed_shapes() {
    let mut layer = SecurityLayer::new(SecurityConfig::default()).with_ui_state(UIState::new(8));
    let err = layer.process_request(&req("GET", "", vec![])).expect_err("empty target");
    match err {
        SecurityError::InvalidInput { reason, field } => {
            assert_eq!(reason, "Input validation failed");
            assert!(field.is_none());
        }
        other => panic!("expected a validation rejection, got {:?}", other),
    }
    let (_, _, _, _, validation_failures) =
        layer.ui_state.as_ref().unwrap().snapshot_counters();
    assert_eq!(validation_failures, 1);

    let mut tight = SecurityConfig::default();
    tight.validation.max_uri_length = 4;
    let mut layer2 = SecurityLayer::new(tight);
    assert!(layer2.process_request(&req("GET", "/abcd", vec![])).is_err());
    assert!(layer2.process_request(&req("GET", "/ab", vec![])).is_ok());
}

#[test]
fn each_scoring_rule_has_its_weight() {
    let cases: Vec<(&str, u32)> = vec![
        ("/files?p=../../../etc", 40),
        ("/files?p=..\\..\\..\\etc", 40),
        ("/files?p=..%2fetc", 50),
        ("/x?q=<SCRIPT>alert(1)", 60),
        ("/x?q=javascript:alert(1)", 60),
        ("/x?q=onerror=alert", 50),
        ("/x?q=onerror_alert", 0),
        ("/x?q=onload=go", 50),
        ("/x?q=union+select", 60),
        ("/x?q=union+only", 0),
        ("/x?q='; drop table users", 60),
        ("/x?q=' or '1'='1", 60),
        ("/api/x?c=`;ls", 50),
        ("/no-api?c=`;ls", 0),
    ];
    for (uri, expected) in cases {
        let r = req("GET", uri, vec![]);
        let mut ctx = SecurityContext::new("id".to_string(), "ip".to_string());
        let cfg = SecurityConfig::default().threat_detection;
        let _ = detect_threats(&r, &mut ctx, &cfg);
        assert_eq!(ctx.threat_score, expected, "target {:?}", uri);
    }
}

#[test]
fn header_rules_score_oversize_and_scanners() {
    let big = "a".repeat(8193);
    let r = RequestData::new(
        "GET".to_string(),
        "/".to_string(),
        vec![
            ("x-big".to_string(), big),
            ("user-agent".to_string(), "Mozilla nmap probe".to_string()),
        ],
    );
    let mut ctx = SecurityContext::new("id".to_string(), "ip".to_string());
    let cfg = SecurityConfig::default().threat_detection;
    let _ = detect_threats(&r, &mut ctx, &cfg);
    assert_eq!(ctx.threat_score, 100);
    let boundary = RequestData::new(
        "GET".to_string(),
        "/".to_string(),
        vec![("x-big".to_string(), "a".repeat(8192))],
    );
    let mut ctx2 = SecurityContext::new("id".to_string(), "ip".to_string());
    let _ = detect_threats(&boundary, &mut ctx2, &cfg);
    assert_eq!(ctx2.threat_score, 0);
}

#[test]
fn score_only_mode_never_blocks() {
    let mut config = SecurityConfig::default();
    config.threat_detection.block_suspicious = false;
    let mut layer = SecurityLayer::new(config);
    let ctx = layer
        .process_request(&req("GET", "/files?p=../../../etc/passwd", vec![]))
        .expect("score-only mode admits");
    assert_eq!(ctx.threat_score, 40);
}

#[test]
fn sink_log_is_bounded_fifo() {
    let mut sink = UIState::new(2);
    sink.add_request_log(record("one"));
    sink.add_request_log(record("two"));
    sink.add_request_log(record("three"));
    let all = sink.recent(10);
    assert_eq!(all.len(), 2);
    assert_eq!(all[0].id, "two");
    assert_eq!(all[1].id, "three");
    let last = sink.recent(1);
    assert_eq!(last[0].id, "three");
    let mut empty = UIState::new(0);
    empty.add_request_log(record("gone"));
    assert_eq!(empty.recent(10).len(), 0);
}

#[test]
fn severity_levels_are_ordered() {
    assert!(ThreatSeverity::Low < ThreatSeverity::Medium);
    assert!(ThreatSeverity::Medium < ThreatSeverity::High);
    assert!(ThreatSeverity::High < ThreatSeverity::Critical);
    assert_eq!(ThreatSeverity::High.name(), "High");
}
