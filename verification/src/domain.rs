//! The domain model: monitored targets and the outcomes of their checks.
//!
//! A [`MonitoredDomain`] keeps a bounded history of [`CheckStatus`] records:
//! at most [`HISTORY_CAP`] entries, oldest evicted first, so the history is
//! always the most recent checks in completion order.

use vstd::prelude::*;

verus! {

/// The most recent checks a target keeps; older entries are evicted first.
pub const HISTORY_CAP: usize = 100;

/// Classification of one HTTP response code, kept for display.
#[derive(Debug, Clone, Copy, PartialEq, Eq, Structural)]
pub enum HttpCode {
    /// Exactly the success code 200.
    Success,
    /// Any server error code (500..=599).
    ServerError,
    /// Any other valid response code.
    Other(u16),
    /// The probe hit its deadline before a response arrived.
    Timeout,
    /// The probe failed on the transport before a response arrived.
    NetworkError,
}

impl HttpCode {
    /// What `from_status_code` returns for a numeric response code.
    pub open spec fn spec_from_status_code(code: u16) -> HttpCode {
        if code == 200 {
            HttpCode::Success
        } else if 500 <= code <= 599 {
            HttpCode::ServerError
        } else {
            HttpCode::Other(code)
        }
    }

    /// Bucket a numeric HTTP response code for display.
    pub fn from_status_code(code: u16) -> (r: HttpCode)
        ensures
            r == Self::spec_from_status_code(code),
    {
        if code == 200 {
            HttpCode::Success
        } else if 500 <= code && code <= 599 {
            HttpCode::ServerError
        } else {
            HttpCode::Other(code)
        }
    }
}

/// The overall verdict of one check.
#[derive(Debug, PartialEq)]
pub enum DomainStatus {
    /// The target answered with a success status code.
    Up,
    /// The target answered, but not with a success status code.
    Down,
    /// No verdict; used where no check has completed yet.
    Unknown,
    /// The probe itself failed; the message describes how.
    Error(String),
}

impl Clone for DomainStatus {
    fn clone(&self) -> (res: Self)
        ensures
            res == *self,
    {
        match self {
            DomainStatus::Up => DomainStatus::Up,
            DomainStatus::Down => DomainStatus::Down,
            DomainStatus::Unknown => DomainStatus::Unknown,
            DomainStatus::Error(msg) => DomainStatus::Error(msg.clone()),
        }
    }
}

/// The outcome record of one probe.
#[derive(Debug, PartialEq)]
pub struct CheckStatus {
    /// Probe completion time, in milliseconds since the Unix epoch.
    pub timestamp_ms: i64,
    /// The verdict of this check.
    pub status: DomainStatus,
    /// The response classification, where a response arrived.
    pub http_code: Option<HttpCode>,
    /// The elapsed time of the probe, where a response arrived.
    pub response_time_ms: Option<u64>,
    /// The probe failure message, where the probe failed.
    pub error_message: Option<String>,
}

impl Clone for CheckStatus {
    fn clone(&self) -> (res: Self)
        ensures
            res == *self,
    {
        CheckStatus {
            timestamp_ms: self.timestamp_ms,
            status: self.status.clone(),
            http_code: self.http_code,
            response_time_ms: self.response_time_ms,
            error_message: match &self.error_message {
                Some(msg) => Some(msg.clone()),
                None => None,
            },
        }
    }
}

/// Relies on `uuid::Uuid::new_v4` for a fresh random identity, read out
/// through `Uuid::as_u128`.  The value is random, so nothing is promised
/// of it; the registry checks uniqueness on insertion.
#[verifier::external_body]
pub(crate) fn fresh_id() -> u128 {
    uuid::Uuid::new_v4().as_u128()
}

/// The retained tail of a history: the last `n` entries, or all of them
/// where fewer exist.
pub open spec fn take_last<T>(h: Seq<T>, n: int) -> Seq<T> {
    if h.len() <= n {
        h
    } else {
        h.subrange(h.len() - n, h.len() as int)
    }
}

/// The history after one append under the eviction policy: the new entry
/// goes last, and the oldest entries are dropped down to [`HISTORY_CAP`].
pub open spec fn history_after_append(h: Seq<CheckStatus>, r: CheckStatus) -> Seq<CheckStatus> {
    take_last(h.push(r), HISTORY_CAP as int)
}

/// The history after a whole sequence of appends, first entry first.
pub open spec fn history_after_appends(
    h: Seq<CheckStatus>,
    rs: Seq<CheckStatus>,
) -> Seq<CheckStatus>
    decreases rs.len(),
{
    if rs.len() == 0 {
        h
    } else {
        history_after_appends(history_after_append(h, rs[0]), rs.drop_first())
    }
}

/// Taking the last `c` of a concatenation ignores whatever the first part
/// had already lost: trimming before appending more and trimming once at
/// the end agree.
pub proof fn lemma_take_last_concat<T>(a: Seq<T>, t: Seq<T>, c: int)
    requires
        0 <= c,
    ensures
        take_last(take_last(a, c) + t, c) == take_last(a + t, c),
{
    if a.len() <= c {
        assert(take_last(a, c) + t =~= a + t);
    } else {
        let inner = a.subrange(a.len() - c, a.len() as int);
        if t.len() == 0 {
            assert(inner + t =~= inner);
            assert(take_last(inner + t, c) =~= inner);
            assert(take_last(a + t, c) =~= inner);
        } else {
            assert(take_last(inner + t, c) =~= take_last(a + t, c));
        }
    }
}

/// However many results are appended to a bounded history, it holds at
/// most [`HISTORY_CAP`] entries, and they are exactly the most recent ones
/// in completion order: the tail of everything ever appended.
pub proof fn lemma_history_bounded(h: Seq<CheckStatus>, rs: Seq<CheckStatus>)
    requires
        h.len() <= HISTORY_CAP,
    ensures
        history_after_appends(h, rs).len() <= HISTORY_CAP,
        history_after_appends(h, rs) == take_last(h + rs, HISTORY_CAP as int),
    decreases rs.len(),
{
    let c = HISTORY_CAP as int;
    if rs.len() == 0 {
        assert(h + rs =~= h);
    } else {
        let h1 = history_after_append(h, rs[0]);
        lemma_history_bounded(h1, rs.drop_first());
        lemma_take_last_concat(h.push(rs[0]), rs.drop_first(), c);
        assert(h.push(rs[0]) + rs.drop_first() =~= h + rs);
    }
}

/// Appending `N > 100` results leaves exactly the last 100 of them,
/// oldest first, whatever the history held before.
pub proof fn lemma_history_overflow(h: Seq<CheckStatus>, rs: Seq<CheckStatus>)
    requires
        h.len() <= HISTORY_CAP,
        rs.len() >= HISTORY_CAP,
    ensures
        history_after_appends(h, rs) == rs.subrange(
            rs.len() - HISTORY_CAP,
            rs.len() as int,
        ),
{
    let c = HISTORY_CAP as int;
    lemma_history_bounded(h, rs);
    assert(take_last(h + rs, c) =~= rs.subrange(rs.len() - c, rs.len() as int));
}

/// A URL under periodic observation, with its bounded check history.
#[derive(Debug)]
pub struct MonitoredDomain {
    /// Opaque unique identity, generated once and immutable.
    pub id: u128,
    /// The target URL, immutable after creation.
    pub url: String,
    /// Polling interval in seconds; always at least 1.
    pub interval_seconds: u64,
    /// The most recent checks, oldest first.
    pub check_history: Vec<CheckStatus>,
}

/// Whether two domain records carry the same data.  Strings and vectors
/// are compared by content.
pub open spec fn domain_eq(a: MonitoredDomain, b: MonitoredDomain) -> bool {
    &&& a.id == b.id
    &&& a.url == b.url
    &&& a.interval_seconds == b.interval_seconds
    &&& a.check_history@ == b.check_history@
}

impl MonitoredDomain {
    /// The structural invariant: a positive interval and a bounded history.
    pub open spec fn wf(self) -> bool {
        &&& self.interval_seconds >= 1
        &&& self.check_history@.len() <= HISTORY_CAP
    }

    /// Create a target with an empty history.
    pub fn new(id: u128, url: String, interval_seconds: u64) -> (d: MonitoredDomain)
        requires
            interval_seconds >= 1,
        ensures
            d.wf(),
            d.id == id,
            d.url == url,
            d.interval_seconds == interval_seconds,
            d.check_history@ =~= Seq::<CheckStatus>::empty(),
    {
        MonitoredDomain { id, url, interval_seconds, check_history: Vec::new() }
    }

    /// Append one check result and evict the oldest entries beyond
    /// [`HISTORY_CAP`], so the history stays the most recent checks in
    /// completion order.
    pub fn record(&mut self, r: CheckStatus)
        requires
            old(self).wf(),
        ensures
            final(self).wf(),
            final(self).id == old(self).id,
            final(self).url == old(self).url,
            final(self).interval_seconds == old(self).interval_seconds,
            final(self).check_history@ == history_after_append(old(self).check_history@, r),
    {
        self.check_history.push(r);
        if self.check_history.len() > HISTORY_CAP {
            self.check_history.remove(0);
        }
        assert(self.check_history@ =~= history_after_append(old(self).check_history@, r));
    }

    /// Drop the oldest history entries down to [`HISTORY_CAP`], for records
    /// that arrive from outside with a longer history.
    pub fn trim_history(&mut self)
        ensures
            final(self).id == old(self).id,
            final(self).url == old(self).url,
            final(self).interval_seconds == old(self).interval_seconds,
            final(self).check_history@ == take_last(old(self).check_history@, HISTORY_CAP as int),
            final(self).check_history@.len() <= HISTORY_CAP,
    {
        while self.check_history.len() > HISTORY_CAP
            invariant
                self.id == old(self).id,
                self.url == old(self).url,
                self.interval_seconds == old(self).interval_seconds,
                self.check_history@ == take_last(old(self).check_history@, self.check_history@.len() as int)
                    || self.check_history@ == old(self).check_history@,
                self.check_history@.len() >= HISTORY_CAP
                    || self.check_history@ == old(self).check_history@,
            decreases self.check_history@.len(),
        {
            self.check_history.remove(0);
            assert(self.check_history@ =~= take_last(old(self).check_history@, self.check_history@.len() as int));
        }
        proof {
            if old(self).check_history@.len() <= HISTORY_CAP as int {
                assert(self.check_history@ == old(self).check_history@);
                assert(take_last(old(self).check_history@, HISTORY_CAP as int)
                    == old(self).check_history@);
            } else {
                assert(self.check_history@.len() == HISTORY_CAP);
            }
        }
    }
}

impl Clone for MonitoredDomain {
    fn clone(&self) -> (res: Self)
        ensures
            domain_eq(res, *self),
    {
        MonitoredDomain {
            id: self.id,
            url: self.url.clone(),
            interval_seconds: self.interval_seconds,
            check_history: clone_history(&self.check_history),
        }
    }
}

/// Clone a history vector, entry by entry.
fn clone_history(h: &Vec<CheckStatus>) -> (res: Vec<CheckStatus>)
    ensures
        res@ == h@,
{
    let mut res: Vec<CheckStatus> = Vec::new();
    let mut i: usize = 0;
    while i < h.len()
        invariant
            i <= h@.len(),
            res@ == h@.subrange(0, i as int),
        decreases h@.len() - i,
    {
        res.push(h[i].clone());
        assert(res@ =~= h@.subrange(0, i + 1));
        i = i + 1;
    }
    assert(res@ =~= h@);
    res
}

} // verus!
