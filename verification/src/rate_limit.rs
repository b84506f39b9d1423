//! The rate limiting stage: a fixed per-client admission budget. Each
//! client identifier is granted `max_requests` admissions; once the budget
//! is spent, every further check for that client is rejected.

use vstd::prelude::*;
use crate::config::RateLimitConfig;

verus! {

/// Admissions already granted to `client`: the count of the first entry
/// whose key matches, or zero.
pub open spec fn spec_count(s: Seq<(Seq<char>, u64)>, client: Seq<char>) -> u64
    decreases s.len(),
{
    if s.len() == 0 {
        0
    } else if s[0].0 == client {
        s[0].1
    } else {
        spec_count(s.subrange(1, s.len() as int), client)
    }
}

/// `spec_count` reads the entry at the first index whose key matches.
pub proof fn lemma_spec_count_at(s: Seq<(Seq<char>, u64)>, client: Seq<char>, k: int)
    requires
        0 <= k <= s.len(),
        forall|j: int| 0 <= j < k ==> s[j].0 != client,
        k < s.len() ==> s[k].0 == client,
    ensures
        spec_count(s, client) == (if k < s.len() {
            s[k].1
        } else {
            0
        }),
    decreases s.len(),
{
    if s.len() == 0 {
    } else if s[0].0 == client {
        assert(k == 0);
    } else {
        let t = s.subrange(1, s.len() as int);
        assert forall|j: int| 0 <= j < k - 1 implies t[j].0 != client by {
            assert(s[j + 1].0 != client);
        }
        lemma_spec_count_at(t, client, k - 1);
    }
}

/// Decides whether a client identifier is within budget, and consumes one
/// admission when it is.
#[derive(Debug)]
pub struct RateLimiter {
    pub config: RateLimitConfig,
    pub counts: Vec<(String, u64)>,
}

impl RateLimiter {
    /// Admissions already granted per client, as an abstract value.
    pub open spec fn counts_view(&self) -> Seq<(Seq<char>, u64)> {
        self.counts.deep_view()
    }

    /// Admissions already granted to `client`.
    pub open spec fn count_of(&self, client: Seq<char>) -> u64 {
        spec_count(self.counts_view(), client)
    }

    /// A limiter with the given budget and no admissions granted yet.
    pub fn new(config: RateLimitConfig) -> (r: Self)
        ensures
            r.config == config,
            forall|c: Seq<char>| r.count_of(c) == 0,
    {
        let r = RateLimiter { config, counts: Vec::new() };
        proof {
            assert forall|c: Seq<char>| r.count_of(c) == 0 by {
                assert(r.counts_view().len() == 0);
            }
        }
        r
    }

    /// Grants an admission to `client` when it is within budget.
    ///
    /// Returns whether the client was within budget; on success one
    /// admission is consumed, on rejection nothing changes. Counts of
    /// other clients are never touched.
    pub fn check(&mut self, client: &String) -> (r: bool)
        ensures
            r == (old(self).count_of(client@) < old(self).config.max_requests),
            final(self).config == old(self).config,
            final(self).count_of(client@) == (if r {
                old(self).count_of(client@) + 1
            } else {
                old(self).count_of(client@) as int
            }),
            forall|c: Seq<char>|
                c != client@ ==> final(self).count_of(c) == old(self).count_of(c),
    {
        let max: u64 = self.config.max_requests;
        match find_client_index(&self.counts, client) {
            Some(i) => {
                let c: u64 = self.counts[i].1;
                proof {
                    lemma_spec_count_at(self.counts_view(), client@, i as int);
                }
                if c < max {
                    let key: String = self.counts[i].0.clone();
                    self.counts[i] = (key, c + 1);
                    proof {
                        let ghost pre = old(self).counts_view();
                        let ghost s = self.counts_view();
                        assert(s =~= pre.update(i as int, (client@, (c + 1) as u64)));
                        assert forall|j: int| 0 <= j < i implies s[j].0 != client@ by {
                            assert(pre[j].0 != client@);
                        }
                        lemma_spec_count_at(s, client@, i as int);
                        assert forall|other: Seq<char>|
                            other != client@ implies spec_count(s, other) == spec_count(
                            pre,
                            other,
                        ) by {
                            lemma_spec_count_unaffected(pre, s, other);
                        }
                    }
                    true
                } else {
                    false
                }
            },
            None => {
                proof {
                    lemma_spec_count_at(self.counts_view(), client@, self.counts@.len() as int);
                }
                if max > 0 {
                    let key: String = client.clone();
                    self.counts.push((key, 1));
                    proof {
                        let ghost pre = old(self).counts_view();
                        let ghost s = self.counts_view();
                        assert(s =~= pre.push((client@, 1u64)));
                        lemma_spec_count_at(s, client@, pre.len() as int);
                        assert forall|other: Seq<char>|
                            other != client@ implies spec_count(s, other) == spec_count(
                            pre,
                            other,
                        ) by {
                            lemma_spec_count_unaffected(pre, s, other);
                        }
                    }
                    true
                } else {
                    false
                }
            },
        }
    }
}

/// The index of the first entry keyed by `client`, if any.
fn find_client_index(counts: &Vec<(String, u64)>, client: &String) -> (r: Option<usize>)
    ensures
        match r {
            Some(i) => {
                &&& i < counts@.len()
                &&& counts.deep_view()[i as int].0 == client@
                &&& forall|j: int| 0 <= j < i ==> counts.deep_view()[j].0 != client@
            },
            None => forall|j: int|
                0 <= j < counts@.len() ==> counts.deep_view()[j].0 != client@,
        },
{
    let n: usize = counts.len();
    let mut i: usize = 0;
    while i < n
        invariant
            i <= n,
            n == counts@.len(),
            forall|j: int| 0 <= j < i ==> counts.deep_view()[j].0 != client@,
        decreases n - i,
    {
        if counts[i].0 == *client {
            return Some(i);
        }
        i += 1;
    }
    None
}

/// A change that leaves every entry keyed by `name` in place — touching
/// only entries with other keys, or appending one such entry — leaves the
/// count for `name` unchanged.
proof fn lemma_spec_count_unaffected(
    pre: Seq<(Seq<char>, u64)>,
    post: Seq<(Seq<char>, u64)>,
    name: Seq<char>,
)
    requires
        pre.len() <= post.len(),
        post.len() <= pre.len() + 1,
        forall|j: int| 0 <= j < pre.len() && pre[j].0 == name ==> post[j] == pre[j],
        forall|j: int| 0 <= j < pre.len() && pre[j].0 != name ==> post[j].0 != name,
        post.len() > pre.len() ==> post[pre.len() as int].0 != name,
    ensures
        spec_count(post, name) == spec_count(pre, name),
    decreases pre.len(),
{
    if pre.len() == 0 {
        if post.len() == 0 {
        } else {
            assert(post[0].0 != name);
            let t = post.subrange(1, post.len() as int);
            assert(t.len() == 0);
            assert(spec_count(t, name) == 0);
        }
    } else {
        if pre[0].0 == name {
            assert(post[0] == pre[0]);
        } else {
            assert(post[0].0 != name);
            let tp = pre.subrange(1, pre.len() as int);
            let tq = post.subrange(1, post.len() as int);
            assert forall|j: int| 0 <= j < tp.len() && tp[j].0 == name implies tq[j] == tp[j] by {
                assert(pre[j + 1].0 == name);
            }
            assert forall|j: int| 0 <= j < tp.len() && tp[j].0 != name implies tq[j].0 != name by {
                assert(pre[j + 1].0 != name);
            }
            if tq.len() > tp.len() {
                assert(tq[tp.len() as int] == post[pre.len() as int]);
            }
            lemma_spec_count_unaffected(tp, tq, name);
        }
    }
}

} // verus!
