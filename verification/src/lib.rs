//! An in-process API security middleware: a pipeline that inspects each
//! HTTP request, scores it against heuristic threat rules, and either admits
//! it (returning an enriched security context) or rejects it with a typed
//! error, while a sink keeps counters and a bounded log of outcomes.

pub mod auth;
pub mod config;
pub mod context;
pub mod errors;
pub mod laws;
pub mod pipeline;
pub mod rate_limit;
pub mod request;
pub mod scorer;
pub mod sink;
pub mod text;
pub mod validation;

pub use config::AuthConfig;
pub use config::AuthToken;
pub use config::MonitoringConfig;
pub use config::RateLimitConfig;
pub use config::SecurityConfig;
pub use config::ThreatDetectionConfig;
pub use config::ValidationConfig;
pub use context::SecurityContext;
pub use errors::SecurityError;
pub use errors::SecurityResult;
pub use errors::ThreatSeverity;
pub use pipeline::AdmitOutcome;
pub use pipeline::SecurityLayer;
pub use request::RequestData;
pub use sink::RequestLog;
pub use sink::UIState;
