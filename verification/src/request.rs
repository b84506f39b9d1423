//! The request model the pipeline inspects: method, request target and
//! headers as plain values, together with the pure derivations the pipeline
//! makes from them (client identifier, path, user agent).
//!
//! Header names are expected in lower case, as HTTP libraries normalize
//! them; lookups compare names exactly.

use vstd::prelude::*;
use vstd::string::StrSliceExecFns;
use crate::text::chars_of;
use crate::text::find_char;
use crate::text::find_char_vec;
use crate::text::lemma_find_char;

verus! {

/// Abstract value of a request: character sequences for the method, the
/// request target, and each header name/value pair.
pub struct ReqView {
    pub method: Seq<char>,
    pub uri: Seq<char>,
    pub headers: Seq<(Seq<char>, Seq<char>)>,
}

/// An incoming HTTP request, reduced to what the pipeline reads.
#[derive(Debug)]
pub struct RequestData {
    pub method: String,
    pub uri: String,
    pub headers: Vec<(String, String)>,
}

impl View for RequestData {
    type V = ReqView;

    open spec fn view(&self) -> ReqView {
        ReqView {
            method: self.method@,
            uri: self.uri@,
            headers: self.headers.deep_view(),
        }
    }
}

impl RequestData {
    /// A request assembled from its parts.
    pub fn new(method: String, uri: String, headers: Vec<(String, String)>) -> (r: Self)
        ensures
            r.method == method,
            r.uri == uri,
            r.headers == headers,
    {
        Self { method, uri, headers }
    }
}

/// The value of the first header named `name`, if any.
pub open spec fn lookup_header(hs: Seq<(Seq<char>, Seq<char>)>, name: Seq<char>) -> Option<
    Seq<char>,
>
    decreases hs.len(),
{
    if hs.len() == 0 {
        None
    } else if hs[0].0 == name {
        Some(hs[0].1)
    } else {
        lookup_header(hs.subrange(1, hs.len() as int), name)
    }
}

/// `lookup_header` returns the value at the first index whose name matches.
pub proof fn lemma_lookup_header_at(hs: Seq<(Seq<char>, Seq<char>)>, name: Seq<char>, k: int)
    requires
        0 <= k <= hs.len(),
        forall|j: int| 0 <= j < k ==> hs[j].0 != name,
        k < hs.len() ==> hs[k].0 == name,
    ensures
        lookup_header(hs, name) == (if k < hs.len() {
            Some(hs[k].1)
        } else {
            None
        }),
    decreases hs.len(),
{
    if hs.len() == 0 {
    } else if hs[0].0 == name {
        assert(k == 0);
    } else {
        let t = hs.subrange(1, hs.len() as int);
        assert(k >= 1) by {
            assert(0 < hs.len() ==> hs[0].0 != name || k > 0);
        }
        assert forall|j: int| 0 <= j < k - 1 implies t[j].0 != name by {
            assert(hs[j + 1].0 != name);
        }
        lemma_lookup_header_at(t, name, k - 1);
    }
}

/// The first header named `name`, as a reference into the request.
pub fn find_header<'a>(headers: &'a Vec<(String, String)>, name: &str) -> (r: Option<&'a String>)
    ensures
        match r {
            Some(v) => lookup_header(headers.deep_view(), name@) == Some(v@),
            None => lookup_header(headers.deep_view(), name@) is None,
        },
{
    let wanted: String = name.to_owned();
    let n: usize = headers.len();
    let mut i: usize = 0;
    while i < n
        invariant
            i <= n,
            n == headers@.len(),
            wanted@ == name@,
            forall|j: int| 0 <= j < i ==> headers.deep_view()[j].0 != name@,
        decreases n - i,
    {
        if headers[i].0 == wanted {
            proof {
                lemma_lookup_header_at(headers.deep_view(), name@, i as int);
            }
            return Some(&headers[i].1);
        }
        i += 1;
    }
    proof {
        lemma_lookup_header_at(headers.deep_view(), name@, n as int);
    }
    None
}

/// The client identifier derived from forwarding headers: the first entry
/// of the forwarded-for list, else the real-ip header, else `"unknown"`.
pub open spec fn spec_client_ip(hs: Seq<(Seq<char>, Seq<char>)>) -> Seq<char> {
    match lookup_header(hs, "x-forwarded-for"@) {
        Some(v) => v.subrange(0, find_char(v, ',')),
        None => match lookup_header(hs, "x-real-ip"@) {
            Some(v) => v,
            None => "unknown"@,
        },
    }
}

/// The path portion of the request target: everything before the query
/// marker, or the whole target when there is none.
pub open spec fn spec_path(uri: Seq<char>) -> Seq<char> {
    uri.subrange(0, find_char(uri, '?'))
}

/// The user agent reported by the request, else `"unknown"`.
pub open spec fn spec_user_agent(hs: Seq<(Seq<char>, Seq<char>)>) -> Seq<char> {
    match lookup_header(hs, "user-agent"@) {
        Some(v) => v,
        None => "unknown"@,
    }
}

/// The prefix of `s` up to the first occurrence of `c`.
pub fn prefix_before(s: &String, c: char) -> (r: String)
    ensures
        r@ == s@.subrange(0, find_char(s@, c)),
{
    let cs: Vec<char> = chars_of(s.as_str());
    let k: usize = find_char_vec(&cs, c);
    proof {
        lemma_find_char(s@, c);
    }
    s.as_str().substring_char(0, k).to_owned()
}

/// The client identifier of a request (see `spec_client_ip`).
pub fn extract_client_ip(request: &RequestData) -> (r: String)
    ensures
        r@ == spec_client_ip(request@.headers),
{
    match find_header(&request.headers, "x-forwarded-for") {
        Some(v) => prefix_before(v, ','),
        None => match find_header(&request.headers, "x-real-ip") {
            Some(v) => v.clone(),
            None => "unknown".to_owned(),
        },
    }
}

/// The path portion of a request's target (see `spec_path`).
pub fn extract_path(request: &RequestData) -> (r: String)
    ensures
        r@ == spec_path(request@.uri),
{
    prefix_before(&request.uri, '?')
}

/// The user agent of a request (see `spec_user_agent`).
pub fn extract_user_agent(request: &RequestData) -> (r: String)
    ensures
        r@ == spec_user_agent(request@.headers),
{
    match find_header(&request.headers, "user-agent") {
        Some(v) => v.clone(),
        None => "unknown".to_owned(),
    }
}

} // verus!
