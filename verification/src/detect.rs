use vstd::prelude::*;

use crate::json::string_views;
use crate::text::{contains_seq, str_contains};

verus! {

/// The exact log line content that signals the runtime has finished
/// initializing. The child process's phrasing is part of the protocol:
/// dispatch keys on this substring and nothing else.
pub open spec fn readiness_marker() -> Seq<char> {
    "GraphQL server started, Unlock the agent to start holohchain"@
}

/// The marker text as a value, for the executable detector.
pub fn readiness_marker_text() -> (r: &'static str)
    ensures
        r@ == readiness_marker(),
{
    "GraphQL server started, Unlock the agent to start holohchain"
}

/// The line carries the readiness marker somewhere in its contents.
pub open spec fn line_is_marker(line: Seq<char>) -> bool {
    contains_seq(line, readiness_marker())
}

/// Does this log line carry the readiness marker?
pub fn line_has_marker(line: &str) -> (r: bool)
    ensures
        r == line_is_marker(line@),
{
    str_contains(line, readiness_marker_text())
}

/// Some line among the first `upto` carries the marker.
pub open spec fn marker_among(lines: Seq<Seq<char>>, upto: int) -> bool {
    exists|k: int| 0 <= k < upto && line_is_marker(lines[k])
}

/// The one-shot readiness latch: set on the first marker line, never
/// cleared, so publishing is dispatched at most once however many lines
/// carry the marker afterwards.
pub struct ReadinessLatch {
    pub fired: bool,
}

impl ReadinessLatch {
    /// A fresh latch, not yet fired.
    pub fn new() -> (l: ReadinessLatch)
        ensures
            !l.fired,
    {
        ReadinessLatch { fired: false }
    }

    /// Observes one log line. The caller prints the line unconditionally;
    /// the result says whether to dispatch publishing now: true exactly
    /// when this line carries the marker and the latch had not fired yet.
    pub fn observe(&mut self, line: &str) -> (dispatch: bool)
        ensures
            dispatch == (!old(self).fired && line_is_marker(line@)),
            final(self).fired == (old(self).fired || line_is_marker(line@)),
    {
        let m = line_has_marker(line);
        let dispatch = !self.fired && m;
        if m {
            self.fired = true;
        }
        dispatch
    }
}

/// What a whole run of the readiness detector did: the transcript it
/// printed and the dispatch decisions it took.
pub struct ScanReport {
    /// Every line received, in arrival order.
    pub printed: Vec<String>,
    /// How many times publishing was dispatched.
    pub dispatches: usize,
    /// The position of the line that triggered dispatch, if any did.
    pub dispatch_at: Option<usize>,
}

/// Runs the readiness detector over a closed sequence of log lines, as if
/// they had arrived one by one on the channel. The transcript holds every
/// line, in order, none dropped, duplicated or reordered; dispatch happens
/// exactly once when some line carries the marker, at the first such line,
/// and never when none does.
pub fn scan_lines(lines: &Vec<String>) -> (r: ScanReport)
    ensures
        string_views(r.printed@) == string_views(lines@),
        r.dispatches <= 1,
        marker_among(string_views(lines@), lines@.len() as int) ==> r.dispatches == 1,
        !marker_among(string_views(lines@), lines@.len() as int) ==> r.dispatches == 0
            && r.dispatch_at is None,
        r.dispatch_at matches Some(i) ==> i < lines@.len() && line_is_marker(
            string_views(lines@)[i as int],
        ) && !marker_among(string_views(lines@), i as int),
        r.dispatch_at is Some <==> marker_among(string_views(lines@), lines@.len() as int),
{
    let ghost views = string_views(lines@);
    let n = lines.len();
    let mut printed: Vec<String> = Vec::new();
    let mut latch = ReadinessLatch::new();
    let mut dispatches: usize = 0;
    let mut dispatch_at: Option<usize> = None;
    let mut j: usize = 0;
    while j < n
        invariant
            j <= n,
            n == lines@.len(),
            views == string_views(lines@),
            views.len() == n,
            printed@.len() == j,
            forall|k: int| 0 <= k < j ==> printed@[k]@ == views[k],
            latch.fired == marker_among(views, j as int),
            dispatches == if latch.fired { 1int } else { 0int },
            dispatch_at is Some <==> latch.fired,
            dispatch_at matches Some(i) ==> i < j && line_is_marker(views[i as int])
                && !marker_among(views, i as int),
        decreases n - j,
    {
        let line = &lines[j];
        assert(views[j as int] == lines@[j as int]@);
        printed.push(line.clone());
        let dispatch = latch.observe(line.as_str());
        if dispatch {
            dispatches = dispatches + 1;
            dispatch_at = Some(j);
            assert(!marker_among(views, j as int));
        }
        proof {
            if latch.fired {
                if line_is_marker(views[j as int]) {
                    assert(marker_among(views, j + 1 as int));
                } else {
                    let k = choose|k: int| 0 <= k < j && line_is_marker(views[k]);
                    assert(marker_among(views, j + 1 as int));
                }
            } else {
                assert forall|k: int| 0 <= k < j + 1 implies !line_is_marker(views[k]) by {
                    if k < j {
                        assert(!marker_among(views, j as int));
                    }
                }
            }
        }
        j += 1;
    }
    ScanReport { printed, dispatches, dispatch_at }
}

} // verus!
