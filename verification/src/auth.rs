//! The authentication stage: extracts the credential carried in the
//! authorization header and validates it against the configured table,
//! yielding a principal on success.

use vstd::prelude::*;
use crate::config::AuthConfig;
use crate::config::AuthTokenView;
use crate::request::RequestData;
use crate::request::lookup_header;
use crate::text::clone_strings;

verus! {

/// An authenticated principal: identity plus roles.
#[derive(Debug)]
pub struct UserContext {
    pub user_id: String,
    pub roles: Vec<String>,
}

/// What the authenticator concluded about one request.
#[derive(Debug)]
pub enum AuthOutcome {
    /// A configured credential was presented; here is its principal.
    Granted(UserContext),
    /// No credential was presented.
    NoCredentials,
    /// A credential was presented but is not a configured one.
    InvalidCredentials,
}

/// The first configured credential equal to `cred`, if any.
pub open spec fn spec_token_lookup(ts: Seq<AuthTokenView>, cred: Seq<char>) -> Option<
    AuthTokenView,
>
    decreases ts.len(),
{
    if ts.len() == 0 {
        None
    } else if ts[0].token == cred {
        Some(ts[0])
    } else {
        spec_token_lookup(ts.subrange(1, ts.len() as int), cred)
    }
}

/// `spec_token_lookup` returns the entry at the first matching index.
pub proof fn lemma_spec_token_lookup_at(ts: Seq<AuthTokenView>, cred: Seq<char>, k: int)
    requires
        0 <= k <= ts.len(),
        forall|j: int| 0 <= j < k ==> ts[j].token != cred,
        k < ts.len() ==> ts[k].token == cred,
    ensures
        spec_token_lookup(ts, cred) == (if k < ts.len() {
            Some(ts[k])
        } else {
            None
        }),
    decreases ts.len(),
{
    if ts.len() == 0 {
    } else if ts[0].token == cred {
        assert(k == 0);
    } else {
        let t = ts.subrange(1, ts.len() as int);
        assert forall|j: int| 0 <= j < k - 1 implies t[j].token != cred by {
            assert(ts[j + 1].token != cred);
        }
        lemma_spec_token_lookup_at(t, cred, k - 1);
    }
}

/// The authenticator's abstract conclusion for the given headers: the
/// principal of the first configured credential equal to the presented
/// one, or the absence or invalidity of the credential.
pub open spec fn spec_authenticate(
    ts: Seq<AuthTokenView>,
    hs: Seq<(Seq<char>, Seq<char>)>,
) -> Option<Option<AuthTokenView>> {
    match lookup_header(hs, "authorization"@) {
        None => None,
        Some(cred) => Some(spec_token_lookup(ts, cred)),
    }
}

/// Extracts and validates credentials, yielding a principal.
#[derive(Debug)]
pub struct AuthManager {
    pub config: AuthConfig,
}

impl AuthManager {
    /// An authenticator over the given configuration.
    pub fn new(config: AuthConfig) -> (r: Self)
        ensures
            r.config == config,
    {
        AuthManager { config }
    }

    /// What the authenticator concludes about `request`.
    ///
    /// No credential header yields `NoCredentials`; a header equal to a
    /// configured credential yields that credential's principal; any other
    /// header yields `InvalidCredentials`.
    pub fn authenticate(&self, request: &RequestData) -> (r: AuthOutcome)
        ensures
            match r {
                AuthOutcome::NoCredentials => spec_authenticate(
                    self.config.tokens_view(),
                    request@.headers,
                ) is None,
                AuthOutcome::InvalidCredentials => spec_authenticate(
                    self.config.tokens_view(),
                    request@.headers,
                ) == Some(None::<AuthTokenView>),
                AuthOutcome::Granted(u) => spec_authenticate(
                    self.config.tokens_view(),
                    request@.headers,
                ) matches Some(Some(t)) && t.user_id == u.user_id@ && t.roles
                    == u.roles.deep_view(),
            },
    {
        let cred: Option<&String> = crate::request::find_header(&request.headers, "authorization");
        match cred {
            None => AuthOutcome::NoCredentials,
            Some(c) => {
                let n: usize = self.config.tokens.len();
                let mut i: usize = 0;
                while i < n
                    invariant
                        i <= n,
                        n == self.config.tokens@.len(),
                        lookup_header(request@.headers, "authorization"@) == Some(c@),
                        forall|j: int|
                            0 <= j < i ==> self.config.tokens_view()[j].token != c@,
                    decreases n - i,
                {
                    if self.config.tokens[i].token == *c {
                        proof {
                            lemma_spec_token_lookup_at(self.config.tokens_view(), c@, i as int);
                        }
                        let t = &self.config.tokens[i];
                        let user_id: String = t.user_id.clone();
                        let roles: Vec<String> = clone_strings(&t.roles);
                        proof {
                            assert(roles.deep_view() =~= self.config.tokens_view()[
                                i as int
                            ].roles);
                        }
                        return AuthOutcome::Granted(UserContext { user_id, roles });
                    }
                    i += 1;
                }
                proof {
                    lemma_spec_token_lookup_at(self.config.tokens_view(), c@, n as int);
                }
                AuthOutcome::InvalidCredentials
            },
        }
    }
}

} // verus!
