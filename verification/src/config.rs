//! Configuration for the pipeline stages. Deeply immutable after
//! construction; each stage reads only its own section.

use vstd::prelude::*;

verus! {

/// Rate limiting stage configuration: a fixed per-client budget.
#[derive(Debug, Clone, Copy, PartialEq, Eq, Structural)]
pub struct RateLimitConfig {
    pub enabled: bool,
    /// How many admissions each client identifier is granted.
    pub max_requests: u64,
}

/// A credential the authenticator accepts, with the principal it yields.
#[derive(Debug)]
pub struct AuthToken {
    pub token: String,
    pub user_id: String,
    pub roles: Vec<String>,
}

/// Abstract value of an accepted credential.
pub struct AuthTokenView {
    pub token: Seq<char>,
    pub user_id: Seq<char>,
    pub roles: Seq<Seq<char>>,
}

impl View for AuthToken {
    type V = AuthTokenView;

    open spec fn view(&self) -> AuthTokenView {
        AuthTokenView {
            token: self.token@,
            user_id: self.user_id@,
            roles: self.roles.deep_view(),
        }
    }
}

/// Authentication stage configuration.
#[derive(Debug)]
pub struct AuthConfig {
    pub enabled: bool,
    /// When false, requests without credentials pass the stage anonymously.
    pub require_auth: bool,
    /// The credentials the authenticator accepts.
    pub tokens: Vec<AuthToken>,
}

impl AuthConfig {
    /// The accepted credentials, as abstract values.
    pub open spec fn tokens_view(&self) -> Seq<AuthTokenView> {
        self.tokens@.map_values(|t: AuthToken| t@)
    }
}

/// Input validation stage configuration.
#[derive(Debug, Clone, Copy, PartialEq, Eq, Structural)]
pub struct ValidationConfig {
    pub enabled: bool,
    /// Longest accepted request target, in characters.
    pub max_uri_length: usize,
}

/// Threat detection stage configuration.
#[derive(Debug, Clone, Copy, PartialEq, Eq, Structural)]
pub struct ThreatDetectionConfig {
    pub enabled: bool,
    /// Whether the scorer may reject, or only score.
    pub block_suspicious: bool,
    /// Score at which a request with a recognized attack category blocks.
    pub category_block_threshold: u32,
    /// Score at which any request blocks.
    pub score_block_threshold: u32,
}

/// Observation sink configuration.
#[derive(Debug, Clone, Copy, PartialEq, Eq, Structural)]
pub struct MonitoringConfig {
    pub enabled: bool,
    /// Bound on the request log; the oldest record is evicted on overflow.
    pub log_capacity: usize,
}

/// Configuration for the whole pipeline.
#[derive(Debug)]
pub struct SecurityConfig {
    pub rate_limit: RateLimitConfig,
    pub auth: AuthConfig,
    pub validation: ValidationConfig,
    pub threat_detection: ThreatDetectionConfig,
    pub monitoring: MonitoringConfig,
}

impl Default for SecurityConfig {
    /// All stages enabled with permissive defaults: a budget of 100
    /// admissions per client, anonymous traffic allowed, no accepted
    /// credentials, targets up to 8192 characters, blocking on, and a log
    /// of 1024 records.
    fn default() -> (r: Self)
        ensures
            r.rate_limit == (RateLimitConfig { enabled: true, max_requests: 100 }),
            r.auth.enabled,
            !r.auth.require_auth,
            r.auth.tokens@ == Seq::<AuthToken>::empty(),
            r.validation == (ValidationConfig { enabled: true, max_uri_length: 8192 }),
            r.threat_detection == (ThreatDetectionConfig {
                enabled: true,
                block_suspicious: true,
                category_block_threshold: 40,
                score_block_threshold: 100,
            }),
            r.monitoring == (MonitoringConfig { enabled: true, log_capacity: 1024 }),
    {
        SecurityConfig {
            rate_limit: RateLimitConfig { enabled: true, max_requests: 100 },
            auth: AuthConfig { enabled: true, require_auth: false, tokens: Vec::new() },
            validation: ValidationConfig { enabled: true, max_uri_length: 8192 },
            threat_detection: ThreatDetectionConfig {
                enabled: true,
                block_suspicious: true,
                category_block_threshold: 40,
                score_block_threshold: 100,
            },
            monitoring: MonitoringConfig { enabled: true, log_capacity: 1024 },
        }
    }
}

} // verus!
