//! The closed taxonomy of rejection reasons, with the status code each maps
//! to at the transport boundary and a short human-readable message.

use vstd::prelude::*;
use vstd::string::StringExecFns;
use crate::text::dec_digits;
use crate::text::u64_to_string;

verus! {

/// Severity attached to a detected threat.
#[derive(Debug, Clone, Copy, PartialEq, Eq, PartialOrd, Ord, Structural)]
pub enum ThreatSeverity {
    Low,
    Medium,
    High,
    Critical,
}

/// A rejected admission, tagged with the failing policy.
#[derive(Debug, Clone)]
pub enum SecurityError {
    RateLimitExceeded { retry_after: u64 },
    AuthenticationFailed(String),
    AuthorizationFailed(String),
    InvalidInput { reason: String, field: Option<String> },
    ThreatDetected { threat_type: String, severity: ThreatSeverity },
    ConfigError(String),
    InternalError(String),
    CorsViolation(String),
    CsrfViolation(String),
    HttpsRequired,
    TransportLayerViolation(String),
    IpBlocked(String),
    VpnDetected(String),
    ProxyDetected(String),
    RequestTimeout(String),
    ConnectionTimeout(String),
    ReplayDetected(String),
}

/// Result of a security operation.
pub type SecurityResult<T> = Result<T, SecurityError>;

/// The status code a rejection maps to at the transport boundary.
pub open spec fn spec_status_code(e: SecurityError) -> u16 {
    match e {
        SecurityError::RateLimitExceeded { .. } => 429,
        SecurityError::AuthenticationFailed(_) => 401,
        SecurityError::AuthorizationFailed(_) => 403,
        SecurityError::InvalidInput { .. } => 400,
        SecurityError::ThreatDetected { .. } => 403,
        SecurityError::CorsViolation(_) => 403,
        SecurityError::CsrfViolation(_) => 403,
        SecurityError::HttpsRequired => 403,
        _ => 500,
    }
}

/// The name of a severity level.
pub open spec fn spec_severity_name(s: ThreatSeverity) -> Seq<char> {
    match s {
        ThreatSeverity::Low => "Low"@,
        ThreatSeverity::Medium => "Medium"@,
        ThreatSeverity::High => "High"@,
        ThreatSeverity::Critical => "Critical"@,
    }
}

/// The short, non-leaking message shown for a rejection.
pub open spec fn spec_message(e: SecurityError) -> Seq<char> {
    match e {
        SecurityError::RateLimitExceeded { retry_after } => "Rate limit exceeded, retry after "@
            + dec_digits(retry_after as nat) + " seconds"@,
        SecurityError::AuthenticationFailed(msg) => "Authentication failed: "@ + msg@,
        SecurityError::AuthorizationFailed(msg) => "Authorization failed: "@ + msg@,
        SecurityError::InvalidInput { reason, field } => match field {
            Some(f) => "Invalid input in field '"@ + f@ + "': "@ + reason@,
            None => "Invalid input: "@ + reason@,
        },
        SecurityError::ThreatDetected { threat_type, severity } => "Threat detected: "@
            + threat_type@ + " (severity: "@ + spec_severity_name(severity) + ")"@,
        SecurityError::ConfigError(msg) => "Configuration error: "@ + msg@,
        SecurityError::InternalError(msg) => "Internal error: "@ + msg@,
        SecurityError::CorsViolation(msg) => "CORS violation: "@ + msg@,
        SecurityError::CsrfViolation(msg) => "CSRF validation failed: "@ + msg@,
        SecurityError::HttpsRequired => "HTTPS connection required"@,
        SecurityError::TransportLayerViolation(msg) => "Transport layer violation: "@ + msg@,
        SecurityError::IpBlocked(msg) => "IP blocked: "@ + msg@,
        SecurityError::VpnDetected(msg) => "VPN detected: "@ + msg@,
        SecurityError::ProxyDetected(msg) => "Proxy detected: "@ + msg@,
        SecurityError::RequestTimeout(msg) => "Request timeout: "@ + msg@,
        SecurityError::ConnectionTimeout(msg) => "Connection timeout: "@ + msg@,
        SecurityError::ReplayDetected(msg) => "Replay attack detected: "@ + msg@,
    }
}

impl ThreatSeverity {
    /// The name of this severity level.
    pub fn name(&self) -> (r: &'static str)
        ensures
            r@ == spec_severity_name(*self),
    {
        match self {
            ThreatSeverity::Low => "Low",
            ThreatSeverity::Medium => "Medium",
            ThreatSeverity::High => "High",
            ThreatSeverity::Critical => "Critical",
        }
    }
}

fn prefixed(prefix: &str, msg: &String) -> (r: String)
    ensures
        r@ == prefix@ + msg@,
{
    let mut s: String = prefix.to_owned();
    s.append(msg.as_str());
    s
}

impl SecurityError {
    /// The status code this rejection maps to at the transport boundary.
    pub fn status_code(&self) -> (c: u16)
        ensures
            c == spec_status_code(*self),
    {
        match self {
            SecurityError::RateLimitExceeded { .. } => 429,
            SecurityError::AuthenticationFailed(_) => 401,
            SecurityError::AuthorizationFailed(_) => 403,
            SecurityError::InvalidInput { .. } => 400,
            SecurityError::ThreatDetected { .. } => 403,
            SecurityError::CorsViolation(_) => 403,
            SecurityError::CsrfViolation(_) => 403,
            SecurityError::HttpsRequired => 403,
            _ => 500,
        }
    }

    /// The short, non-leaking message for this rejection.
    pub fn message(&self) -> (r: String)
        ensures
            r@ == spec_message(*self),
    {
        match self {
            SecurityError::RateLimitExceeded { retry_after } => {
                let mut s: String = "Rate limit exceeded, retry after ".to_owned();
                let num: String = u64_to_string(*retry_after);
                s.append(num.as_str());
                s.append(" seconds");
                s
            },
            SecurityError::AuthenticationFailed(msg) => prefixed("Authentication failed: ", msg),
            SecurityError::AuthorizationFailed(msg) => prefixed("Authorization failed: ", msg),
            SecurityError::InvalidInput { reason, field } => match field {
                Some(f) => {
                    let mut s: String = "Invalid input in field '".to_owned();
                    s.append(f.as_str());
                    s.append("': ");
                    s.append(reason.as_str());
                    s
                },
                None => prefixed("Invalid input: ", reason),
            },
            SecurityError::ThreatDetected { threat_type, severity } => {
                let mut s: String = "Threat detected: ".to_owned();
                s.append(threat_type.as_str());
                s.append(" (severity: ");
                s.append(severity.name());
                s.append(")");
                s
            },
            SecurityError::ConfigError(msg) => prefixed("Configuration error: ", msg),
            SecurityError::InternalError(msg) => prefixed("Internal error: ", msg),
            SecurityError::CorsViolation(msg) => prefixed("CORS violation: ", msg),
            SecurityError::CsrfViolation(msg) => prefixed("CSRF validation failed: ", msg),
            SecurityError::HttpsRequired => "HTTPS connection required".to_owned(),
            SecurityError::TransportLayerViolation(msg) => prefixed(
                "Transport layer violation: ",
                msg,
            ),
            SecurityError::IpBlocked(msg) => prefixed("IP blocked: ", msg),
            SecurityError::VpnDetected(msg) => prefixed("VPN detected: ", msg),
            SecurityError::ProxyDetected(msg) => prefixed("Proxy detected: ", msg),
            SecurityError::RequestTimeout(msg) => prefixed("Request timeout: ", msg),
            SecurityError::ConnectionTimeout(msg) => prefixed("Connection timeout: ", msg),
            SecurityError::ReplayDetected(msg) => prefixed("Replay attack detected: ", msg),
        }
    }
}

} // verus!
