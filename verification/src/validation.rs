//! The input validation stage: structural checks on the request shape.

use vstd::prelude::*;
use vstd::string::StrSliceExecFns;
use crate::config::ValidationConfig;
use crate::context::SecurityContext;
use crate::request::ReqView;
use crate::request::RequestData;

verus! {

/// A request is structurally valid when its method is non-empty and its
/// target is non-empty and within the configured length bound.
pub open spec fn spec_valid_shape(max_uri_length: usize, r: ReqView) -> bool {
    &&& r.method.len() > 0
    &&& r.uri.len() > 0
    &&& r.uri.len() <= max_uri_length
}

/// Structural validation of the request shape.
#[derive(Debug)]
pub struct InputValidator {
    pub config: ValidationConfig,
}

impl InputValidator {
    /// A validator over the given configuration.
    pub fn new(config: ValidationConfig) -> (r: Self)
        ensures
            r.config == config,
    {
        InputValidator { config }
    }

    /// Checks the request shape; the context is read but never changed.
    pub fn validate_request(&self, request: &RequestData, context: &mut SecurityContext) -> (r:
        bool)
        ensures
            r == spec_valid_shape(self.config.max_uri_length, request@),
            *final(context) == *old(context),
    {
        if request.method.as_str().is_empty() {
            return false;
        }
        let ulen: usize = request.uri.as_str().unicode_len();
        ulen > 0 && ulen <= self.config.max_uri_length
    }
}

} // verus!
