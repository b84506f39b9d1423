//! The heuristic threat scorer: each rule that matches the request adds its
//! score to the context, category flags record which attack families
//! matched, and the block decision compares the accumulated score against
//! the configured thresholds.

use vstd::prelude::*;
use vstd::utf8::encode_utf8;
use crate::config::ThreatDetectionConfig;
use crate::context::SecurityContext;
use crate::context::sat32;
use crate::errors::SecurityError;
use crate::errors::SecurityResult;
use crate::errors::ThreatSeverity;
use crate::request::ReqView;
use crate::request::RequestData;
use crate::text::chars_of;
use crate::text::contains_seq;
use crate::text::contains_chars;
use crate::text::lower;
use crate::text::lower_vec;

verus! {

/// Repeated dot-dot path traversal in the raw target.
pub open spec fn rule_triple_traversal(u: Seq<char>) -> bool {
    contains_seq(u, "../../../"@) || contains_seq(u, "..\\..\\..\\"@)
}

/// Percent-encoded path traversal in the raw target.
pub open spec fn rule_encoded_traversal(u: Seq<char>) -> bool {
    contains_seq(u, "..%2f"@) || contains_seq(u, "..%5c"@)
}

/// Script injection in the lower-cased target.
pub open spec fn rule_script_xss(l: Seq<char>) -> bool {
    contains_seq(l, "<script"@) || contains_seq(l, "javascript:alert"@)
}

/// Event-handler injection in the lower-cased target.
pub open spec fn rule_handler_xss(l: Seq<char>) -> bool {
    ||| (contains_seq(l, "onerror="@) && !contains_seq(l, "onerror_"@))
    ||| (contains_seq(l, "onload="@) && !contains_seq(l, "onload_"@))
}

/// Union-select keywords together in the lower-cased target.
pub open spec fn rule_union_select(l: Seq<char>) -> bool {
    contains_seq(l, "union"@) && contains_seq(l, "select"@)
}

/// Statement-terminating injection in the lower-cased target.
pub open spec fn rule_drop_delete(l: Seq<char>) -> bool {
    contains_seq(l, "'; drop"@) || contains_seq(l, "'; delete"@)
}

/// Quoted tautology in the lower-cased target.
pub open spec fn rule_quote_tautology(l: Seq<char>) -> bool {
    contains_seq(l, "' or '1'='1"@) || contains_seq(l, "1'or'1'='1"@)
}

/// Shell metacharacters against an api path in the raw target.
pub open spec fn rule_cmd_injection(u: Seq<char>) -> bool {
    (contains_seq(u, "`;"@) || contains_seq(u, "`|"@)) && contains_seq(u, "/api/"@)
}

/// The sql category: any sql injection rule matched the target.
pub open spec fn has_sql(u: Seq<char>) -> bool {
    ||| rule_union_select(lower(u))
    ||| rule_drop_delete(lower(u))
    ||| rule_quote_tautology(lower(u))
}

/// The xss category: any script injection rule matched the target.
pub open spec fn has_xss(u: Seq<char>) -> bool {
    rule_script_xss(lower(u)) || rule_handler_xss(lower(u))
}

/// The path-traversal category: any traversal rule matched the target.
pub open spec fn has_path_traversal(u: Seq<char>) -> bool {
    rule_triple_traversal(u) || rule_encoded_traversal(u)
}

/// Any attack category matched the target.
pub open spec fn has_category(u: Seq<char>) -> bool {
    has_sql(u) || has_xss(u) || has_path_traversal(u)
}

/// The total score the target contributes: the sum of the scores of the
/// rules whose condition holds.
pub open spec fn uri_score(u: Seq<char>) -> int {
    (if rule_triple_traversal(u) { 40int } else { 0int })
    + (if rule_encoded_traversal(u) { 50int } else { 0int })
    + (if rule_script_xss(lower(u)) { 60int } else { 0int })
    + (if rule_handler_xss(lower(u)) { 50int } else { 0int })
    + (if rule_union_select(lower(u)) { 60int } else { 0int })
    + (if rule_drop_delete(lower(u)) { 60int } else { 0int })
    + (if rule_quote_tautology(lower(u)) { 60int } else { 0int })
    + (if rule_cmd_injection(u) { 50int } else { 0int })
}

/// The header value is large enough to suggest an overflow attempt.
pub open spec fn oversize_header(v: Seq<char>) -> bool {
    encode_utf8(v).len() > 8192
}

/// The lower-cased user agent names a known scanning tool.
pub open spec fn scanner_ua(lv: Seq<char>) -> bool {
    ||| contains_seq(lv, "sqlmap"@)
    ||| contains_seq(lv, "nikto"@)
    ||| contains_seq(lv, "nmap"@)
    ||| contains_seq(lv, "masscan"@)
    ||| contains_seq(lv, "burp"@)
}

/// The score one header contributes.
pub open spec fn header_score(name: Seq<char>, value: Seq<char>) -> int {
    (if oversize_header(value) { 30int } else { 0int })
    + (if name == "user-agent"@ && scanner_ua(lower(value)) { 70int } else { 0int })
}

/// The total score the headers contribute.
pub open spec fn headers_score(hs: Seq<(Seq<char>, Seq<char>)>) -> int
    decreases hs.len(),
{
    if hs.len() == 0 {
        0
    } else {
        headers_score(hs.drop_last()) + header_score(hs.last().0, hs.last().1)
    }
}

/// The total score a request accrues: target rules plus header rules.
pub open spec fn request_score(r: ReqView) -> int {
    uri_score(r.uri) + headers_score(r.headers)
}

/// The block decision: when blocking is enabled, a request blocks when a
/// recognized attack category matched and the accumulated score reaches
/// the category threshold, or when the score reaches the uncategorized
/// threshold by itself.
pub open spec fn spec_blocks(r: ReqView, s0: u32, cfg: ThreatDetectionConfig) -> bool {
    &&& cfg.block_suspicious
    &&& {
        ||| (has_category(r.uri) && sat32(s0 + request_score(r)) >= cfg.category_block_threshold)
        ||| sat32(s0 + request_score(r)) >= cfg.score_block_threshold
    }
}

/// Every header score is non-negative.
pub proof fn lemma_headers_score_nonneg(hs: Seq<(Seq<char>, Seq<char>)>)
    ensures
        headers_score(hs) >= 0,
    decreases hs.len(),
{
    if hs.len() > 0 {
        lemma_headers_score_nonneg(hs.drop_last());
    }
}

proof fn lemma_sat32_chain(a: int, d: int)
    requires
        a >= 0,
        d >= 0,
    ensures
        sat32(sat32(a) + d) == sat32(a + d),
{
}

/// Adds the rule's score to the context when the rule matched.
fn apply_rule(context: &mut SecurityContext, matched: bool, pts: u32)
    ensures
        final(context).threat_score == sat32(
            old(context).threat_score + (if matched {
                pts as int
            } else {
                0int
            }),
        ),
        final(context).request_id == old(context).request_id,
        final(context).client_ip == old(context).client_ip,
        final(context).user_id == old(context).user_id,
        final(context).authenticated == old(context).authenticated,
        final(context).roles == old(context).roles,
        final(context).metadata == old(context).metadata,
{
    if matched {
        context.add_threat_score(pts);
    }
}

/// Scores the target against the uniform-resource rules; returns the
/// category flags (sql, xss, path traversal).
#[verifier::rlimit(100)]
fn score_uri(request: &RequestData, context: &mut SecurityContext) -> (flags: (bool, bool, bool))
    ensures
        final(context).threat_score == sat32(old(context).threat_score + uri_score(request@.uri)),
        final(context).request_id == old(context).request_id,
        final(context).client_ip == old(context).client_ip,
        final(context).user_id == old(context).user_id,
        final(context).authenticated == old(context).authenticated,
        final(context).roles == old(context).roles,
        final(context).metadata == old(context).metadata,
        flags.0 == has_sql(request@.uri),
        flags.1 == has_xss(request@.uri),
        flags.2 == has_path_traversal(request@.uri),
{
    let ghost s0 = old(context).threat_score as int;
    let ghost u = request@.uri;
    let uri_chars: Vec<char> = chars_of(request.uri.as_str());
    let uri_lower: Vec<char> = lower_vec(&uri_chars);

    let t1: bool = contains_chars(&uri_chars, &chars_of("../../../")) || contains_chars(
        &uri_chars,
        &chars_of("..\\..\\..\\"),
    );
    apply_rule(context, t1, 40);
    let ghost sum1 = (if rule_triple_traversal(u) { 40int } else { 0int });
    proof {
        lemma_sat32_chain(s0, sum1);
        assert(context.threat_score == sat32(s0 + sum1));
    }

    let t2: bool = contains_chars(&uri_chars, &chars_of("..%2f")) || contains_chars(
        &uri_chars,
        &chars_of("..%5c"),
    );
    apply_rule(context, t2, 50);
    let ghost sum2 = sum1 + (if rule_encoded_traversal(u) { 50int } else { 0int });
    proof {
        lemma_sat32_chain(s0 + sum1, sum2 - sum1);
        assert(context.threat_score == sat32(s0 + sum2));
    }

    let t3: bool = contains_chars(&uri_lower, &chars_of("<script")) || contains_chars(
        &uri_lower,
        &chars_of("javascript:alert"),
    );
    apply_rule(context, t3, 60);
    let ghost sum3 = sum2 + (if rule_script_xss(lower(u)) { 60int } else { 0int });
    proof {
        lemma_sat32_chain(s0 + sum2, sum3 - sum2);
        assert(context.threat_score == sat32(s0 + sum3));
    }

    let t4: bool = (contains_chars(&uri_lower, &chars_of("onerror=")) && !contains_chars(
        &uri_lower,
        &chars_of("onerror_"),
    )) || (contains_chars(&uri_lower, &chars_of("onload=")) && !contains_chars(
        &uri_lower,
        &chars_of("onload_"),
    ));
    apply_rule(context, t4, 50);
    let ghost sum4 = sum3 + (if rule_handler_xss(lower(u)) { 50int } else { 0int });
    proof {
        lemma_sat32_chain(s0 + sum3, sum4 - sum3);
        assert(context.threat_score == sat32(s0 + sum4));
    }

    let t5: bool = contains_chars(&uri_lower, &chars_of("union")) && contains_chars(
        &uri_lower,
        &chars_of("select"),
    );
    apply_rule(context, t5, 60);
    let ghost sum5 = sum4 + (if rule_union_select(lower(u)) { 60int } else { 0int });
    proof {
        lemma_sat32_chain(s0 + sum4, sum5 - sum4);
        assert(context.threat_score == sat32(s0 + sum5));
    }

    let t6: bool = contains_chars(&uri_lower, &chars_of("'; drop")) || contains_chars(
        &uri_lower,
        &chars_of("'; delete"),
    );
    apply_rule(context, t6, 60);
    let ghost sum6 = sum5 + (if rule_drop_delete(lower(u)) { 60int } else { 0int });
    proof {
        lemma_sat32_chain(s0 + sum5, sum6 - sum5);
        assert(context.threat_score == sat32(s0 + sum6));
    }

    let t7: bool = contains_chars(&uri_lower, &chars_of("' or '1'='1")) || contains_chars(
        &uri_lower,
        &chars_of("1'or'1'='1"),
    );
    apply_rule(context, t7, 60);
    let ghost sum7 = sum6 + (if rule_quote_tautology(lower(u)) { 60int } else { 0int });
    proof {
        lemma_sat32_chain(s0 + sum6, sum7 - sum6);
        assert(context.threat_score == sat32(s0 + sum7));
    }

    let t8: bool = (contains_chars(&uri_chars, &chars_of("`;")) || contains_chars(
        &uri_chars,
        &chars_of("`|"),
    )) && contains_chars(&uri_chars, &chars_of("/api/"));
    apply_rule(context, t8, 50);
    let ghost sum8 = sum7 + (if rule_cmd_injection(u) { 50int } else { 0int });
    proof {
        lemma_sat32_chain(s0 + sum7, sum8 - sum7);
        assert(sum8 == uri_score(u));
        assert(context.threat_score == sat32(s0 + uri_score(u)));
    }

    (t5 || t6 || t7, t3 || t4, t1 || t2)
}

/// Scores one header: an oversize value, and a scanner name in the user
/// agent.
fn score_one_header(name: &String, value: &String, context: &mut SecurityContext)
    ensures
        final(context).threat_score == sat32(
            old(context).threat_score + header_score(name@, value@),
        ),
        final(context).request_id == old(context).request_id,
        final(context).client_ip == old(context).client_ip,
        final(context).user_id == old(context).user_id,
        final(context).authenticated == old(context).authenticated,
        final(context).roles == old(context).roles,
        final(context).metadata == old(context).metadata,
{
    let ghost s0 = old(context).threat_score as int;
    let oversize: bool = value.as_str().as_bytes().len() > 8192;
    if oversize {
        context.add_threat_score(30);
    }
    let ghost hsum1 = (if oversize_header(value@) { 30int } else { 0int });
    proof {
        lemma_sat32_chain(s0, hsum1);
        assert(context.threat_score == sat32(s0 + hsum1));
    }
    let ua_name: String = "user-agent".to_owned();
    let scan: bool = if *name == ua_name {
        let value_lower: Vec<char> = lower_vec(&chars_of(value.as_str()));
        contains_chars(&value_lower, &chars_of("sqlmap")) || contains_chars(
            &value_lower,
            &chars_of("nikto"),
        ) || contains_chars(&value_lower, &chars_of("nmap")) || contains_chars(
            &value_lower,
            &chars_of("masscan"),
        ) || contains_chars(&value_lower, &chars_of("burp"))
    } else {
        false
    };
    if scan {
        context.add_threat_score(70);
    }
    let ghost hsum2 = hsum1 + (if name@ == "user-agent"@ && scanner_ua(lower(value@)) {
        70int
    } else {
        0int
    });
    proof {
        lemma_sat32_chain(s0 + hsum1, hsum2 - hsum1);
        assert(hsum2 == header_score(name@, value@));
        assert(context.threat_score == sat32(s0 + hsum2));
    }
}

/// Scores every header of the request.
fn score_headers(request: &RequestData, context: &mut SecurityContext)
    ensures
        final(context).threat_score == sat32(
            old(context).threat_score + headers_score(request@.headers),
        ),
        final(context).request_id == old(context).request_id,
        final(context).client_ip == old(context).client_ip,
        final(context).user_id == old(context).user_id,
        final(context).authenticated == old(context).authenticated,
        final(context).roles == old(context).roles,
        final(context).metadata == old(context).metadata,
{
    let ghost s0 = old(context).threat_score as int;
    let ghost hs = request@.headers;
    let n: usize = request.headers.len();
    let mut i: usize = 0;
    while i < n
        invariant
            i <= n,
            n == request.headers@.len(),
            hs == request@.headers,
            s0 == old(context).threat_score as int,
            context.threat_score == sat32(s0 + headers_score(hs.take(i as int))),
            context.request_id == old(context).request_id,
            context.client_ip == old(context).client_ip,
            context.user_id == old(context).user_id,
            context.authenticated == old(context).authenticated,
            context.roles == old(context).roles,
            context.metadata == old(context).metadata,
        decreases n - i,
    {
        let ghost partial = headers_score(hs.take(i as int));
        let name: &String = &request.headers[i].0;
        let value: &String = &request.headers[i].1;
        proof {
            assert(hs[i as int] == (name@, value@));
        }
        score_one_header(name, value, context);
        proof {
            lemma_headers_score_nonneg(hs.take(i as int));
            lemma_sat32_chain(s0 + partial, header_score(name@, value@));
            let t = hs.take(i + 1);
            assert(t.drop_last() =~= hs.take(i as int));
            assert(t.last() == hs[i as int]);
            assert(headers_score(t) == partial + header_score(name@, value@));
            assert(context.threat_score == sat32(s0 + headers_score(t)));
        }
        i += 1;
    }
    proof {
        assert(hs.take(n as int) =~= hs);
    }
}

/// Scores the request and decides whether it blocks.
///
/// All rules are always evaluated; the score accumulates into the context
/// with saturating addition. The request itself is never changed, and the
/// context changes only in its threat score.
pub fn detect_threats(
    request: &RequestData,
    context: &mut SecurityContext,
    config: &ThreatDetectionConfig,
) -> (r: SecurityResult<()>)
    ensures
        final(context).threat_score == sat32(
            old(context).threat_score + request_score(request@),
        ),
        final(context).request_id == old(context).request_id,
        final(context).client_ip == old(context).client_ip,
        final(context).user_id == old(context).user_id,
        final(context).authenticated == old(context).authenticated,
        final(context).roles == old(context).roles,
        final(context).metadata == old(context).metadata,
        r is Err <==> spec_blocks(request@, old(context).threat_score, *config),
        r matches Err(e) ==> e matches SecurityError::ThreatDetected { threat_type, severity }
            && threat_type@ == "Suspicious request pattern"@ && severity == ThreatSeverity::High,
{
    let ghost s0 = old(context).threat_score as int;
    let flags: (bool, bool, bool) = score_uri(request, context);
    score_headers(request, context);
    proof {
        lemma_headers_score_nonneg(request@.headers);
        lemma_sat32_chain(s0 + uri_score(request@.uri), headers_score(request@.headers));
        assert(context.threat_score == sat32(s0 + request_score(request@)));
    }
    if config.block_suspicious {
        if (flags.0 || flags.1 || flags.2) && context.threat_score
            >= config.category_block_threshold {
            return Err(
                SecurityError::ThreatDetected {
                    threat_type: "Suspicious request pattern".to_owned(),
                    severity: ThreatSeverity::High,
                },
            );
        }
        if context.threat_score >= config.score_block_threshold {
            return Err(
                SecurityError::ThreatDetected {
                    threat_type: "Suspicious request pattern".to_owned(),
                    severity: ThreatSeverity::High,
                },
            );
        }
    }
    Ok(())
}

} // verus!
