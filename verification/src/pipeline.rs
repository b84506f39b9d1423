//! The pipeline orchestrator: composes rate limiting, authentication,
//! validation and threat detection in fixed order over one request,
//! short-circuits at the first failing stage, and emits one observation
//! record per admission.

use vstd::prelude::*;
use crate::auth::AuthManager;
use crate::auth::AuthOutcome;
use crate::config::AuthTokenView;
use crate::config::MonitoringConfig;
use crate::config::SecurityConfig;
use crate::config::ThreatDetectionConfig;
use crate::context::SecurityContext;
use crate::context::sat32;
use crate::context::sat64;
use crate::errors::SecurityError;
use crate::errors::SecurityResult;
use crate::errors::ThreatSeverity;
use crate::rate_limit::RateLimiter;
use crate::request::ReqView;
use crate::request::RequestData;
use crate::request::extract_client_ip;
use crate::request::extract_path;
use crate::request::extract_user_agent;
use crate::request::spec_client_ip;
use crate::request::spec_path;
use crate::request::spec_user_agent;
use crate::scorer::detect_threats;
use crate::scorer::request_score;
use crate::scorer::spec_blocks;
use crate::sink::RequestLog;
use crate::sink::RequestLogView;
use crate::sink::UIState;
use crate::sink::bump;
use crate::sink::clone_opt_string;
use crate::sink::spec_fifo_push;
use crate::auth::spec_authenticate;
use crate::validation::InputValidator;
use crate::validation::spec_valid_shape;

verus! {

/// Relies on uuid::Uuid::new_v4 and its display rendering: a fresh random
/// identifier in the 36-character hyphenated form. The value itself is
/// random, so nothing is promised beyond its length.
#[verifier::external_body]
fn fresh_request_id() -> (r: String)
    ensures
        r@.len() == 36,
{
    uuid::Uuid::new_v4().to_string()
}

/// Relies on chrono::Utc::now and timestamp_millis: the wall-clock time in
/// milliseconds since the epoch. The value depends on the clock, so
/// nothing is promised of it.
#[verifier::external_body]
fn now_timestamp_millis() -> i64 {
    chrono::Utc::now().timestamp_millis()
}

/// How one admission ended: admitted, or rejected by the named stage.
#[derive(Debug, Clone, Copy, PartialEq, Eq, Structural)]
pub enum AdmitOutcome {
    Admitted,
    RateLimited,
    /// No credentials while the policy requires them.
    AuthRequired,
    /// Credentials presented but not accepted.
    AuthInvalid,
    InvalidShape,
    ThreatBlocked,
}

/// The status code recorded for an outcome.
pub open spec fn spec_status_of(o: AdmitOutcome) -> u16 {
    match o {
        AdmitOutcome::Admitted => 200,
        AdmitOutcome::RateLimited => 429,
        AdmitOutcome::AuthRequired => 401,
        AdmitOutcome::AuthInvalid => 401,
        AdmitOutcome::InvalidShape => 400,
        AdmitOutcome::ThreatBlocked => 403,
    }
}

/// The short reason recorded for an outcome.
pub open spec fn spec_reason_of(o: AdmitOutcome) -> Option<Seq<char>> {
    match o {
        AdmitOutcome::Admitted => None,
        AdmitOutcome::RateLimited => Some("Rate limit exceeded"@),
        AdmitOutcome::AuthRequired => Some("Authentication failed"@),
        AdmitOutcome::AuthInvalid => Some("Authentication failed"@),
        AdmitOutcome::InvalidShape => Some("Validation failed"@),
        AdmitOutcome::ThreatBlocked => Some("Threat detected"@),
    }
}

/// Counts one admission in the sink, when one is attached.
fn bump_total(ui: &mut Option<UIState>)
    ensures
        (*old(ui)) is None ==> (*final(ui)) is None,
        (*old(ui)) matches Some(pre) ==> (*final(ui)) matches Some(post) && post == (UIState {
            total_requests: sat64(pre.total_requests + 1),
            ..pre
        }),
{
    match ui {
        Some(u) => {
            u.total_requests = bump(u.total_requests);
        },
        None => {},
    }
}

/// Counts one rejection in the sink, when one is attached: the blocked
/// counter, and the counter of the failing stage.
fn note_rejection(ui: &mut Option<UIState>, o: AdmitOutcome)
    requires
        o != AdmitOutcome::Admitted,
    ensures
        (*old(ui)) is None ==> (*final(ui)) is None,
        (*old(ui)) matches Some(pre) ==> (*final(ui)) matches Some(post) && post == (UIState {
            blocked_requests: sat64(pre.blocked_requests + 1),
            rate_limited: if o == AdmitOutcome::RateLimited {
                sat64(pre.rate_limited + 1)
            } else {
                pre.rate_limited
            },
            auth_failures: if o == AdmitOutcome::AuthRequired || o == AdmitOutcome::AuthInvalid {
                sat64(pre.auth_failures + 1)
            } else {
                pre.auth_failures
            },
            validation_failures: if o == AdmitOutcome::InvalidShape {
                sat64(pre.validation_failures + 1)
            } else {
                pre.validation_failures
            },
            ..pre
        }),
{
    match ui {
        Some(u) => {
            u.blocked_requests = bump(u.blocked_requests);
            match o {
                AdmitOutcome::RateLimited => {
                    u.rate_limited = bump(u.rate_limited);
                },
                AdmitOutcome::AuthRequired => {
                    u.auth_failures = bump(u.auth_failures);
                },
                AdmitOutcome::AuthInvalid => {
                    u.auth_failures = bump(u.auth_failures);
                },
                AdmitOutcome::InvalidShape => {
                    u.validation_failures = bump(u.validation_failures);
                },
                _ => {},
            }
        },
        None => {},
    }
}

/// Appends one record to the sink's log, when one is attached.
fn emit_log(ui: &mut Option<UIState>, rec: RequestLog)
    ensures
        (*old(ui)) is None ==> (*final(ui)) is None,
        (*old(ui)) matches Some(pre) ==> (*final(ui)) matches Some(post) && post.logs()
            == spec_fifo_push(pre.logs(), rec@, pre.capacity as int) && post == (UIState {
            log: post.log,
            ..pre
        }),
{
    match ui {
        Some(u) => {
            u.add_request_log(rec);
        },
        None => {},
    }
}

/// Main security layer: the stages, their shared state, and the sink.
#[derive(Debug)]
pub struct SecurityLayer {
    pub rate_limiter: RateLimiter,
    pub auth_manager: AuthManager,
    pub validator: InputValidator,
    pub threat_detection: ThreatDetectionConfig,
    pub monitoring: MonitoringConfig,
    pub ui_state: Option<UIState>,
}

impl SecurityLayer {
    /// The rate limiting stage would reject the request.
    pub open spec fn spec_rate_rejects(&self, r: ReqView) -> bool {
        &&& self.rate_limiter.config.enabled
        &&& self.rate_limiter.count_of(spec_client_ip(r.headers))
            >= self.rate_limiter.config.max_requests
    }

    /// What the authenticator concludes about the request.
    pub open spec fn spec_auth_result(&self, r: ReqView) -> Option<Option<AuthTokenView>> {
        spec_authenticate(self.auth_manager.config.tokens_view(), r.headers)
    }

    /// The authentication stage would reject the request.
    pub open spec fn spec_auth_rejects(&self, r: ReqView) -> bool {
        &&& self.auth_manager.config.enabled
        &&& match self.spec_auth_result(r) {
            None => self.auth_manager.config.require_auth,
            Some(None) => true,
            Some(Some(_)) => false,
        }
    }

    /// The principal the authentication stage grants, if any.
    pub open spec fn spec_granted(&self, r: ReqView) -> Option<AuthTokenView> {
        if self.auth_manager.config.enabled {
            match self.spec_auth_result(r) {
                Some(Some(t)) => Some(t),
                _ => None,
            }
        } else {
            None
        }
    }

    /// The validation stage would reject the request.
    pub open spec fn spec_validation_rejects(&self, r: ReqView) -> bool {
        self.validator.config.enabled && !spec_valid_shape(self.validator.config.max_uri_length, r)
    }

    /// The threat detection stage would reject the request.
    pub open spec fn spec_threat_rejects(&self, r: ReqView) -> bool {
        self.threat_detection.enabled && spec_blocks(r, 0, self.threat_detection)
    }

    /// How this layer decides the request: the first failing stage in the
    /// fixed order, or admission.
    pub open spec fn spec_outcome(&self, r: ReqView) -> AdmitOutcome {
        if self.spec_rate_rejects(r) {
            AdmitOutcome::RateLimited
        } else if self.auth_manager.config.enabled && self.spec_auth_result(r) == Some(
            None::<AuthTokenView>,
        ) {
            AdmitOutcome::AuthInvalid
        } else if self.auth_manager.config.enabled && self.spec_auth_result(r) is None
            && self.auth_manager.config.require_auth {
            AdmitOutcome::AuthRequired
        } else if self.spec_validation_rejects(r) {
            AdmitOutcome::InvalidShape
        } else if self.spec_threat_rejects(r) {
            AdmitOutcome::ThreatBlocked
        } else {
            AdmitOutcome::Admitted
        }
    }

    /// The score left in the context once the scorer has run.
    pub open spec fn spec_final_score(&self, r: ReqView) -> u32 {
        if self.threat_detection.enabled {
            sat32(request_score(r))
        } else {
            0
        }
    }

    /// The score snapshot recorded for an outcome: zero before the scorer
    /// runs, the accumulated score from the scorer on.
    pub open spec fn spec_record_score(&self, r: ReqView, o: AdmitOutcome) -> u32 {
        match o {
            AdmitOutcome::Admitted => self.spec_final_score(r),
            AdmitOutcome::ThreatBlocked => self.spec_final_score(r),
            _ => 0,
        }
    }

    /// The user identity recorded for an outcome: none until the
    /// authentication stage has granted one.
    pub open spec fn spec_record_user(&self, r: ReqView, o: AdmitOutcome) -> Option<Seq<char>> {
        match o {
            AdmitOutcome::RateLimited => None,
            AdmitOutcome::AuthRequired => None,
            AdmitOutcome::AuthInvalid => None,
            _ => match self.spec_granted(r) {
                Some(t) => Some(t.user_id),
                None => None,
            },
        }
    }

    /// The observation record one admission emits, up to its identifier
    /// (random) and timestamp (the clock).
    pub open spec fn spec_record_matches(
        &self,
        rec: RequestLogView,
        r: ReqView,
        o: AdmitOutcome,
    ) -> bool {
        &&& rec.id.len() == 36
        &&& rec.method == r.method
        &&& rec.path == spec_path(r.uri)
        &&& rec.client_ip == spec_client_ip(r.headers)
        &&& rec.user_agent == spec_user_agent(r.headers)
        &&& rec.user_id == self.spec_record_user(r, o)
        &&& rec.status_code == spec_status_of(o)
        &&& rec.threat_score == self.spec_record_score(r, o)
        &&& rec.blocked == (o != AdmitOutcome::Admitted)
        &&& rec.reason == spec_reason_of(o)
        &&& rec.headers.len() == 0
    }

    /// How one admission changes the sink: the total always counts it, the
    /// failing stage's counter and the blocked counter count a rejection,
    /// and exactly one record is appended under the capacity bound.
    pub open spec fn spec_sink_updated(
        &self,
        pre: UIState,
        post: UIState,
        r: ReqView,
        o: AdmitOutcome,
    ) -> bool {
        &&& post.total_requests == sat64(pre.total_requests + 1)
        &&& post.blocked_requests == (if o != AdmitOutcome::Admitted {
            sat64(pre.blocked_requests + 1)
        } else {
            pre.blocked_requests
        })
        &&& post.rate_limited == (if o == AdmitOutcome::RateLimited {
            sat64(pre.rate_limited + 1)
        } else {
            pre.rate_limited
        })
        &&& post.auth_failures == (if o == AdmitOutcome::AuthRequired || o
            == AdmitOutcome::AuthInvalid {
            sat64(pre.auth_failures + 1)
        } else {
            pre.auth_failures
        })
        &&& post.validation_failures == (if o == AdmitOutcome::InvalidShape {
            sat64(pre.validation_failures + 1)
        } else {
            pre.validation_failures
        })
        &&& post.capacity == pre.capacity
        &&& if pre.capacity > 0 {
            &&& post.logs().len() > 0
            &&& post.logs() == spec_fifo_push(pre.logs(), post.logs().last(), pre.capacity as int)
            &&& self.spec_record_matches(post.logs().last(), r, o)
        } else {
            post.logs().len() == 0
        }
    }

    /// How one admission changes the limiter: an admission is consumed for
    /// the request's client when the stage is enabled and the client was
    /// within budget; no other client's count changes.
    pub open spec fn spec_limiter_updated(
        pre: RateLimiter,
        post: RateLimiter,
        r: ReqView,
    ) -> bool {
        let client = spec_client_ip(r.headers);
        &&& post.config == pre.config
        &&& post.count_of(client) == (if pre.config.enabled && pre.count_of(client)
            < pre.config.max_requests {
            pre.count_of(client) + 1
        } else {
            pre.count_of(client) as int
        })
        &&& forall|c: Seq<char>| c != client ==> post.count_of(c) == pre.count_of(c)
    }

    /// A layer over the given configuration, with no sink attached.
    pub fn new(config: SecurityConfig) -> (r: Self)
        ensures
            r.rate_limiter.config == config.rate_limit,
            forall|c: Seq<char>| r.rate_limiter.count_of(c) == 0,
            r.auth_manager.config == config.auth,
            r.validator.config == config.validation,
            r.threat_detection == config.threat_detection,
            r.monitoring == config.monitoring,
            r.ui_state is None,
    {
        let SecurityConfig { rate_limit, auth, validation, threat_detection, monitoring } = config;
        SecurityLayer {
            rate_limiter: RateLimiter::new(rate_limit),
            auth_manager: AuthManager::new(auth),
            validator: InputValidator::new(validation),
            threat_detection,
            monitoring,
            ui_state: None,
        }
    }

    /// Evaluates one admission: each enabled stage runs in the fixed
    /// order, the first failing stage increments its counter and the
    /// blocked counter and emits a blocked record, and an admitted request
    /// yields its enriched context and one admitted record.
    #[verifier::rlimit(100)]
    pub fn process_request(&mut self, request: &RequestData) -> (r: SecurityResult<
        SecurityContext,
    >)
        ensures
            ({
                let o = old(self).spec_outcome(request@);
                &&& final(self).auth_manager == old(self).auth_manager
                &&& final(self).validator == old(self).validator
                &&& final(self).threat_detection == old(self).threat_detection
                &&& final(self).monitoring == old(self).monitoring
                &&& Self::spec_limiter_updated(
                    old(self).rate_limiter,
                    final(self).rate_limiter,
                    request@,
                )
                &&& match old(self).ui_state {
                    None => final(self).ui_state is None,
                    Some(pre) => final(self).ui_state matches Some(post)
                        && old(self).spec_sink_updated(pre, post, request@, o),
                }
                &&& match r {
                    Ok(ctx) => {
                        &&& o == AdmitOutcome::Admitted
                        &&& ctx.request_id@.len() == 36
                        &&& ctx.client_ip@ == spec_client_ip(request@.headers)
                        &&& match old(self).spec_granted(request@) {
                            Some(t) => ctx.user_id.deep_view() == Some(t.user_id)
                                && ctx.authenticated && ctx.roles.deep_view() == t.roles,
                            None => ctx.user_id is None && !ctx.authenticated && ctx.roles@
                                == Seq::<String>::empty(),
                        }
                        &&& ctx.threat_score == old(self).spec_final_score(request@)
                        &&& ctx.metadata@ == Seq::<(String, String)>::empty()
                        &&& ctx.wf()
                        &&& match final(self).ui_state {
                            Some(post) => post.capacity > 0 ==> post.logs().last().id
                                == ctx.request_id@,
                            None => true,
                        }
                    },
                    Err(e) => o != AdmitOutcome::Admitted && match e {
                        SecurityError::RateLimitExceeded { retry_after } => o
                            == AdmitOutcome::RateLimited && retry_after == 60,
                        SecurityError::AuthenticationFailed(msg) => (o
                            == AdmitOutcome::AuthRequired && msg@ == "Authentication required"@)
                            || (o == AdmitOutcome::AuthInvalid && msg@ == "Invalid credentials"@),
                        SecurityError::InvalidInput { reason, field } => o
                            == AdmitOutcome::InvalidShape && reason@ == "Input validation failed"@
                            && field is None,
                        SecurityError::ThreatDetected { threat_type, severity } => o
                            == AdmitOutcome::ThreatBlocked && threat_type@
                            == "Suspicious request pattern"@ && severity == ThreatSeverity::High,
                        _ => false,
                    },
                }
            }),
    {
        let client_ip: String = extract_client_ip(request);
        let request_id: String = fresh_request_id();
        let timestamp: i64 = now_timestamp_millis();
        let method: String = request.method.clone();
        let path: String = extract_path(request);
        let user_agent: String = extract_user_agent(request);

        let mut context: SecurityContext = SecurityContext::new(
            request_id.clone(),
            client_ip.clone(),
        );

        bump_total(&mut self.ui_state);

        if self.rate_limiter.config.enabled {
            let within: bool = self.rate_limiter.check(&client_ip);
            if !within {
                proof {
                    assert(old(self).spec_outcome(request@) == AdmitOutcome::RateLimited);
                }
                note_rejection(&mut self.ui_state, AdmitOutcome::RateLimited);
                emit_log(
                    &mut self.ui_state,
                    RequestLog {
                        id: request_id,
                        timestamp,
                        method,
                        path,
                        client_ip,
                        user_agent,
                        user_id: None,
                        status_code: 429,
                        threat_score: 0,
                        blocked: true,
                        reason: Some("Rate limit exceeded".to_owned()),
                        headers: Vec::new(),
                    },
                );
                return Err(SecurityError::RateLimitExceeded { retry_after: 60 });
            }
        }

        if self.auth_manager.config.enabled {
            match self.auth_manager.authenticate(request) {
                AuthOutcome::Granted(principal) => {
                    context = context.with_user(principal.user_id, principal.roles);
                },
                AuthOutcome::NoCredentials => {
                    if self.auth_manager.config.require_auth {
                        proof {
                            assert(old(self).spec_outcome(request@) == AdmitOutcome::AuthRequired);
                        }
                        note_rejection(&mut self.ui_state, AdmitOutcome::AuthRequired);
                        emit_log(
                            &mut self.ui_state,
                            RequestLog {
                                id: request_id,
                                timestamp,
                                method,
                                path,
                                client_ip,
                                user_agent,
                                user_id: None,
                                status_code: 401,
                                threat_score: 0,
                                blocked: true,
                                reason: Some("Authentication failed".to_owned()),
                                headers: Vec::new(),
                            },
                        );
                        return Err(
                            SecurityError::AuthenticationFailed(
                                "Authentication required".to_owned(),
                            ),
                        );
                    }
                },
                AuthOutcome::InvalidCredentials => {
                    proof {
                        assert(old(self).spec_outcome(request@) == AdmitOutcome::AuthInvalid);
                    }
                    note_rejection(&mut self.ui_state, AdmitOutcome::AuthInvalid);
                    emit_log(
                        &mut self.ui_state,
                        RequestLog {
                            id: request_id,
                            timestamp,
                            method,
                            path,
                            client_ip,
                            user_agent,
                            user_id: None,
                            status_code: 401,
                            threat_score: 0,
                            blocked: true,
                            reason: Some("Authentication failed".to_owned()),
                            headers: Vec::new(),
                        },
                    );
                    return Err(
                        SecurityError::AuthenticationFailed("Invalid credentials".to_owned()),
                    );
                },
            }
        }

        if self.validator.config.enabled {
            let valid: bool = self.validator.validate_request(request, &mut context);
            if !valid {
                proof {
                    assert(old(self).spec_outcome(request@) == AdmitOutcome::InvalidShape);
                }
                note_rejection(&mut self.ui_state, AdmitOutcome::InvalidShape);
                emit_log(
                    &mut self.ui_state,
                    RequestLog {
                        id: request_id,
                        timestamp,
                        method,
                        path,
                        client_ip,
                        user_agent,
                        user_id: clone_opt_string(&context.user_id),
                        status_code: 400,
                        threat_score: 0,
                        blocked: true,
                        reason: Some("Validation failed".to_owned()),
                        headers: Vec::new(),
                    },
                );
                return Err(
                    SecurityError::InvalidInput {
                        reason: "Input validation failed".to_owned(),
                        field: None,
                    },
                );
            }
        }

        if self.threat_detection.enabled {
            let verdict: SecurityResult<()> = detect_threats(
                request,
                &mut context,
                &self.threat_detection,
            );
            match verdict {
                Err(e) => {
                    proof {
                        assert(old(self).spec_outcome(request@) == AdmitOutcome::ThreatBlocked);
                    }
                    note_rejection(&mut self.ui_state, AdmitOutcome::ThreatBlocked);
                    emit_log(
                        &mut self.ui_state,
                        RequestLog {
                            id: request_id,
                            timestamp,
                            method,
                            path,
                            client_ip,
                            user_agent,
                            user_id: clone_opt_string(&context.user_id),
                            status_code: 403,
                            threat_score: context.threat_score,
                            blocked: true,
                            reason: Some("Threat detected".to_owned()),
                            headers: Vec::new(),
                        },
                    );
                    return Err(e);
                },
                Ok(()) => {},
            }
        }

        proof {
            assert(old(self).spec_outcome(request@) == AdmitOutcome::Admitted);
        }
        emit_log(
            &mut self.ui_state,
            RequestLog {
                id: request_id,
                timestamp,
                method,
                path,
                client_ip,
                user_agent,
                user_id: clone_opt_string(&context.user_id),
                status_code: 200,
                threat_score: context.threat_score,
                blocked: false,
                reason: None,
                headers: Vec::new(),
            },
        );
        Ok(context)
    }

    /// The same layer with the given sink attached.
    pub fn with_ui_state(self, ui_state: UIState) -> (r: Self)
        ensures
            r.ui_state == Some(ui_state),
            r.rate_limiter == self.rate_limiter,
            r.auth_manager == self.auth_manager,
            r.validator == self.validator,
            r.threat_detection == self.threat_detection,
            r.monitoring == self.monitoring,
    {
        SecurityLayer { ui_state: Some(ui_state), ..self }
    }
}

} // verus!
