//! The per-admission security context: mutable state ferried between the
//! pipeline stages and returned to the caller on admission.

use vstd::prelude::*;

verus! {

/// Saturating 32-bit clamp of a mathematical score.
pub open spec fn sat32(x: int) -> u32 {
    if x > u32::MAX {
        u32::MAX
    } else if x < 0 {
        0
    } else {
        x as u32
    }
}

/// Saturating 64-bit clamp of a mathematical counter value.
pub open spec fn sat64(x: int) -> u64 {
    if x > u64::MAX {
        u64::MAX
    } else if x < 0 {
        0
    } else {
        x as u64
    }
}

/// Security context passed through the middleware chain.
#[derive(Debug)]
pub struct SecurityContext {
    pub request_id: String,
    pub client_ip: String,
    pub user_id: Option<String>,
    pub authenticated: bool,
    pub roles: Vec<String>,
    pub threat_score: u32,
    pub metadata: Vec<(String, String)>,
}

impl SecurityContext {
    /// The context is well formed: the authenticated flag mirrors the
    /// presence of a user identity.
    pub open spec fn wf(&self) -> bool {
        self.authenticated <==> self.user_id is Some
    }

    /// A fresh, anonymous context with no accumulated threat score.
    pub fn new(request_id: String, client_ip: String) -> (r: Self)
        ensures
            r.request_id == request_id,
            r.client_ip == client_ip,
            r.user_id is None,
            !r.authenticated,
            r.roles@ == Seq::<String>::empty(),
            r.threat_score == 0,
            r.metadata@ == Seq::<(String, String)>::empty(),
            r.wf(),
    {
        Self {
            request_id,
            client_ip,
            user_id: None,
            authenticated: false,
            roles: Vec::new(),
            threat_score: 0,
            metadata: Vec::new(),
        }
    }

    /// The context after a successful authentication: the principal's
    /// identity and roles are merged in, everything else is kept.
    pub fn with_user(self, user_id: String, roles: Vec<String>) -> (r: Self)
        ensures
            r.request_id == self.request_id,
            r.client_ip == self.client_ip,
            r.user_id == Some(user_id),
            r.authenticated,
            r.roles == roles,
            r.threat_score == self.threat_score,
            r.metadata == self.metadata,
            r.wf(),
    {
        Self { user_id: Some(user_id), authenticated: true, roles, ..self }
    }

    /// Adds to the threat score, saturating at the maximum.
    pub fn add_threat_score(&mut self, score: u32)
        ensures
            final(self).threat_score == sat32(old(self).threat_score + score),
            final(self).request_id == old(self).request_id,
            final(self).client_ip == old(self).client_ip,
            final(self).user_id == old(self).user_id,
            final(self).authenticated == old(self).authenticated,
            final(self).roles == old(self).roles,
            final(self).metadata == old(self).metadata,
    {
        self.threat_score = if score > u32::MAX - self.threat_score {
            u32::MAX
        } else {
            self.threat_score + score
        };
    }

    /// Whether the accumulated score marks the request as high risk.
    pub fn is_high_risk(&self) -> (r: bool)
        ensures
            r == (self.threat_score > 100),
    {
        self.threat_score > 100
    }
}

} // verus!
