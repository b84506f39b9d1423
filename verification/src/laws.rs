//! Laws of the pipeline, stated over the same spec functions its
//! contracts use.

use vstd::prelude::*;
use crate::config::ThreatDetectionConfig;
use crate::pipeline::AdmitOutcome;
use crate::pipeline::SecurityLayer;
use crate::request::ReqView;
use crate::request::spec_client_ip;
use crate::scorer::request_score;
use crate::scorer::spec_blocks;

verus! {

/// With every stage disabled, every request is admitted; by
/// `process_request`'s contract the admission then changes no counter but
/// the total and emits exactly one non-blocked record.
pub proof fn lemma_all_disabled_admits(layer: SecurityLayer, r: ReqView)
    requires
        !layer.rate_limiter.config.enabled,
        !layer.auth_manager.config.enabled,
        !layer.validator.config.enabled,
        !layer.threat_detection.enabled,
    ensures
        layer.spec_outcome(r) == AdmitOutcome::Admitted,
{
}

/// How many of a run of outcomes were admitted.
pub open spec fn spec_count_admitted(os: Seq<AdmitOutcome>) -> int
    decreases os.len(),
{
    if os.len() == 0 {
        0
    } else {
        spec_count_admitted(os.drop_last()) + (if os.last() == AdmitOutcome::Admitted {
            1int
        } else {
            0int
        })
    }
}

/// The total and blocked counters of a sink that has seen the given run
/// of outcomes from a fresh start, as `process_request` maintains them:
/// the total counts every admission, the blocked counter counts every
/// rejection, both saturating.
pub open spec fn spec_counters_after(os: Seq<AdmitOutcome>) -> (int, int)
    decreases os.len(),
{
    if os.len() == 0 {
        (0, 0)
    } else {
        let prev = spec_counters_after(os.drop_last());
        (
            crate::context::sat64(prev.0 + 1) as int,
            if os.last() != AdmitOutcome::Admitted {
                crate::context::sat64(prev.1 + 1) as int
            } else {
                prev.1
            },
        )
    }
}

/// After any run of admissions that fits the counters, the total equals
/// the admitted count plus the blocked counter.
pub proof fn lemma_total_splits(os: Seq<AdmitOutcome>)
    requires
        os.len() <= u64::MAX,
    ensures
        0 <= spec_count_admitted(os) <= os.len(),
        spec_counters_after(os).0 == os.len(),
        spec_counters_after(os).0 == spec_count_admitted(os) + spec_counters_after(os).1,
    decreases os.len(),
{
    if os.len() > 0 {
        lemma_total_splits(os.drop_last());
    }
}

/// A rate-limit-exhausted client is rejected, the rejection leaves the
/// limiter's count for that client unchanged, and a second admission for
/// the same client is rejected again: the limiter sees both.
pub proof fn lemma_rate_exhausted_twice(
    layer0: SecurityLayer,
    layer1: SecurityLayer,
    r1: ReqView,
    r2: ReqView,
)
    requires
        layer0.rate_limiter.config.enabled,
        layer0.rate_limiter.count_of(spec_client_ip(r1.headers))
            >= layer0.rate_limiter.config.max_requests,
        spec_client_ip(r2.headers) == spec_client_ip(r1.headers),
        SecurityLayer::spec_limiter_updated(layer0.rate_limiter, layer1.rate_limiter, r1),
    ensures
        layer0.spec_outcome(r1) == AdmitOutcome::RateLimited,
        layer1.spec_outcome(r2) == AdmitOutcome::RateLimited,
{
}

/// The scorer is pure: requests with equal targets and headers, scored
/// from equal starting scores, get the same score and the same block
/// decision.
pub proof fn lemma_scorer_deterministic(
    r1: ReqView,
    s1: u32,
    r2: ReqView,
    s2: u32,
    cfg: ThreatDetectionConfig,
)
    requires
        r1.uri == r2.uri,
        r1.headers == r2.headers,
        s1 == s2,
    ensures
        request_score(r1) == request_score(r2),
        spec_blocks(r1, s1, cfg) == spec_blocks(r2, s2, cfg),
{
}

} // verus!


