//! The observation sink: counters over all admissions and a bounded
//! first-in first-out log of per-request records, oldest evicted on
//! overflow.

use vstd::prelude::*;
use crate::context::sat64;
use crate::text::clone_string_pairs;

verus! {

/// One request's outcome, immutable once emitted.
#[derive(Debug)]
pub struct RequestLog {
    pub id: String,
    /// Wall-clock time of the admission, in milliseconds since the epoch.
    pub timestamp: i64,
    pub method: String,
    pub path: String,
    pub client_ip: String,
    pub user_agent: String,
    pub user_id: Option<String>,
    pub status_code: u16,
    pub threat_score: u32,
    pub blocked: bool,
    pub reason: Option<String>,
    pub headers: Vec<(String, String)>,
}

/// Abstract value of a request record.
pub struct RequestLogView {
    pub id: Seq<char>,
    pub timestamp: i64,
    pub method: Seq<char>,
    pub path: Seq<char>,
    pub client_ip: Seq<char>,
    pub user_agent: Seq<char>,
    pub user_id: Option<Seq<char>>,
    pub status_code: u16,
    pub threat_score: u32,
    pub blocked: bool,
    pub reason: Option<Seq<char>>,
    pub headers: Seq<(Seq<char>, Seq<char>)>,
}

impl DeepView for RequestLog {
    type V = RequestLogView;

    open spec fn deep_view(&self) -> RequestLogView {
        self.view()
    }
}

impl View for RequestLog {
    type V = RequestLogView;

    open spec fn view(&self) -> RequestLogView {
        RequestLogView {
            id: self.id@,
            timestamp: self.timestamp,
            method: self.method@,
            path: self.path@,
            client_ip: self.client_ip@,
            user_agent: self.user_agent@,
            user_id: self.user_id.deep_view(),
            status_code: self.status_code,
            threat_score: self.threat_score,
            blocked: self.blocked,
            reason: self.reason.deep_view(),
            headers: self.headers.deep_view(),
        }
    }
}

/// A copy of an optional string.
pub fn clone_opt_string(o: &Option<String>) -> (r: Option<String>)
    ensures
        r.deep_view() == o.deep_view(),
{
    match o {
        None => None,
        Some(s) => Some(s.clone()),
    }
}

impl Clone for RequestLog {
    /// An equal record: every field of the copy has the same value.
    fn clone(&self) -> (r: Self)
        ensures
            r@ == self@,
    {
        let r = RequestLog {
            id: self.id.clone(),
            timestamp: self.timestamp,
            method: self.method.clone(),
            path: self.path.clone(),
            client_ip: self.client_ip.clone(),
            user_agent: self.user_agent.clone(),
            user_id: clone_opt_string(&self.user_id),
            status_code: self.status_code,
            threat_score: self.threat_score,
            blocked: self.blocked,
            reason: clone_opt_string(&self.reason),
            headers: clone_string_pairs(&self.headers),
        };
        proof {
            assert(r.headers.deep_view() =~= self.headers.deep_view());
        }
        r
    }
}

/// A bounded first-in first-out log: the record is appended, and when the
/// result exceeds the capacity the oldest records are dropped.
pub open spec fn spec_fifo_push(
    s: Seq<RequestLogView>,
    r: RequestLogView,
    cap: int,
) -> Seq<RequestLogView> {
    let t = s.push(r);
    if t.len() <= cap {
        t
    } else {
        t.subrange(t.len() - cap, t.len() as int)
    }
}

/// Process-wide observation state: counters and the bounded request log.
#[derive(Debug)]
pub struct UIState {
    pub total_requests: u64,
    pub blocked_requests: u64,
    pub rate_limited: u64,
    pub auth_failures: u64,
    pub validation_failures: u64,
    pub log: Vec<RequestLog>,
    pub capacity: usize,
}

impl UIState {
    /// The recorded outcomes, oldest first, as abstract values.
    pub open spec fn logs(&self) -> Seq<RequestLogView> {
        self.log.deep_view()
    }

    /// The log never exceeds its capacity.
    pub open spec fn wf(&self) -> bool {
        self.logs().len() <= self.capacity
    }

    /// A sink with zeroed counters, an empty log, and the given capacity.
    pub fn new(log_capacity: usize) -> (r: Self)
        ensures
            r.total_requests == 0,
            r.blocked_requests == 0,
            r.rate_limited == 0,
            r.auth_failures == 0,
            r.validation_failures == 0,
            r.logs() == Seq::<RequestLogView>::empty(),
            r.capacity == log_capacity,
            r.wf(),
    {
        let r = UIState {
            total_requests: 0,
            blocked_requests: 0,
            rate_limited: 0,
            auth_failures: 0,
            validation_failures: 0,
            log: Vec::new(),
            capacity: log_capacity,
        };
        proof {
            assert(r.logs() =~= Seq::<RequestLogView>::empty());
        }
        r
    }

    /// Appends one record, evicting the oldest on overflow. Counters are
    /// not touched: the pipeline maintains them.
    pub fn add_request_log(&mut self, log: RequestLog)
        ensures
            final(self).logs() == spec_fifo_push(
                old(self).logs(),
                log@,
                old(self).capacity as int,
            ),
            final(self).total_requests == old(self).total_requests,
            final(self).blocked_requests == old(self).blocked_requests,
            final(self).rate_limited == old(self).rate_limited,
            final(self).auth_failures == old(self).auth_failures,
            final(self).validation_failures == old(self).validation_failures,
            final(self).capacity == old(self).capacity,
            old(self).wf() ==> final(self).wf(),
    {
        let ghost pushed = old(self).logs().push(log@);
        self.log.push(log);
        proof {
            assert(self.logs() =~= pushed);
        }
        while self.log.len() > self.capacity
            invariant
                self.log@.len() <= pushed.len(),
                self.log@.len() >= self.capacity || self.log@.len() == pushed.len(),
                self.logs() =~= pushed.subrange(
                    pushed.len() - self.log@.len(),
                    pushed.len() as int,
                ),
                self.capacity == old(self).capacity,
                self.total_requests == old(self).total_requests,
                self.blocked_requests == old(self).blocked_requests,
                self.rate_limited == old(self).rate_limited,
                self.auth_failures == old(self).auth_failures,
                self.validation_failures == old(self).validation_failures,
            decreases self.log@.len(),
        {
            let ghost before = self.log@;
            let ghost lv = self.logs();
            let dropped: RequestLog = self.log.remove(0);
            proof {
                assert(self.log@ =~= before.remove(0));
                assert forall|j: int| 0 <= j < self.log@.len() implies self.logs()[j]
                    == pushed[pushed.len() - self.log@.len() + j] by {
                    assert(self.log@[j] == before[j + 1]);
                    assert(self.logs()[j] == self.log@[j].deep_view());
                    assert(lv[j + 1] == before[j + 1].deep_view());
                    assert(lv[j + 1] == pushed.subrange(
                        pushed.len() - before.len(),
                        pushed.len() as int,
                    )[j + 1]);
                }
                assert(self.logs() =~= pushed.subrange(
                    pushed.len() - self.log@.len(),
                    pushed.len() as int,
                ));
            }
        }
        proof {
            if pushed.len() <= self.capacity {
                assert(self.log@.len() == pushed.len());
                assert(pushed.subrange(0, pushed.len() as int) =~= pushed);
                assert(self.logs() =~= pushed);
            } else {
                assert(self.log@.len() == self.capacity);
            }
        }
    }

    /// A consistent read of the counter tuple: total, blocked, rate
    /// limited, authentication failures, validation failures.
    pub fn snapshot_counters(&self) -> (r: (u64, u64, u64, u64, u64))
        ensures
            r.0 == self.total_requests,
            r.1 == self.blocked_requests,
            r.2 == self.rate_limited,
            r.3 == self.auth_failures,
            r.4 == self.validation_failures,
    {
        (
            self.total_requests,
            self.blocked_requests,
            self.rate_limited,
            self.auth_failures,
            self.validation_failures,
        )
    }

    /// Up to `n` most recent records, in arrival order.
    pub fn recent(&self, n: usize) -> (r: Vec<RequestLog>)
        ensures
            r.deep_view() == self.logs().subrange(
                self.logs().len() - (if n <= self.logs().len() {
                    n as int
                } else {
                    self.logs().len() as int
                }),
                self.logs().len() as int,
            ),
    {
        let len: usize = self.log.len();
        let m: usize = if n <= len {
            n
        } else {
            len
        };
        let start: usize = len - m;
        let mut r: Vec<RequestLog> = Vec::new();
        let mut i: usize = start;
        while i < len
            invariant
                start <= i <= len,
                len == self.log@.len(),
                r.deep_view() =~= self.logs().subrange(start as int, i as int),
            decreases len - i,
        {
            let c: RequestLog = self.log[i].clone();
            let ghost r0 = r@;
            let ghost r0dv = r.deep_view();
            proof {
                assert(c@ == self.log@[i as int]@);
            }
            r.push(c);
            proof {
                assert(r@.len() == r0.len() + 1);
                assert(r0dv.len() == i - start);
                assert(r0dv.len() == r0.len());
                assert forall|j: int| 0 <= j < r@.len() implies r.deep_view()[j] == self.logs()[
                    start + j
                ] by {
                    assert(r.deep_view()[j] == r@[j].deep_view());
                    if j < r0.len() {
                        assert(r@[j] == r0[j]);
                        assert(r0dv[j] == r0[j].deep_view());
                        assert(r0dv[j] == self.logs().subrange(start as int, i as int)[j]);
                        assert(self.logs().subrange(start as int, i as int)[j] == self.logs()[
                            start + j
                        ]);
                    } else {
                        assert(j == i - start);
                        assert(r@[j] == c);
                        assert(c.deep_view() == self.log@[i as int].deep_view());
                        assert(self.logs()[i as int] == self.log@[i as int].deep_view());
                    }
                }
                assert(r.deep_view() =~= self.logs().subrange(start as int, i + 1));
            }
            i += 1;
        }
        r
    }
}

/// Saturating counter increment.
pub fn bump(c: u64) -> (r: u64)
    ensures
        r == sat64(c + 1),
{
    if c == u64::MAX {
        c
    } else {
        c + 1
    }
}

} // verus!
