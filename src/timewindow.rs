//! Instants, durations, and the time window that a request asks for.
use crate::calendar::{
    count_significant_digits, datetime_of, duration_of, i64_of, parse_datetime, parse_duration,
    parse_i64, significant_digits, MAX_DURATION_DIGITS,
};
use crate::error::{ApiError, BAD_REQUEST};
use vstd::prelude::*;

verus! {

/// Nanoseconds in one second.
pub const NANOS_PER_SEC: u32 = 1_000_000_000;

/// An instant: whole seconds since the Unix epoch and the nanoseconds beyond them.
#[derive(Debug, Clone, Copy)]
pub struct Moment {
    pub secs: i64,
    pub nanos: u32,
}

/// A length of time: whole seconds and the nanoseconds beyond them.
#[derive(Debug, Clone, Copy)]
pub struct Span {
    pub secs: u64,
    pub nanos: u32,
}

impl Moment {
    pub open spec fn wf(self) -> bool {
        self.nanos < NANOS_PER_SEC
    }

    /// The instant in nanoseconds since the Unix epoch.
    pub open spec fn ns(self) -> int {
        self.secs * 1_000_000_000 + self.nanos
    }
}

impl Span {
    pub open spec fn wf(self) -> bool {
        self.nanos < NANOS_PER_SEC
    }

    /// The length in nanoseconds.
    pub open spec fn ns(self) -> int {
        self.secs * 1_000_000_000 + self.nanos
    }
}

/// Whether an instant, in nanoseconds, has whole seconds that fit in `i64`.
pub open spec fn moment_fits(ns: int) -> bool {
    i64::MIN * 1_000_000_000 <= ns < (i64::MAX + 1) * 1_000_000_000
}

proof fn lemma_fits(secs: int, nanos: int)
    requires
        0 <= nanos < 1_000_000_000,
    ensures
        moment_fits(secs * 1_000_000_000 + nanos) <==> (i64::MIN <= secs <= i64::MAX),
{
    if secs > i64::MAX {
        assert(secs * 1_000_000_000 >= (i64::MAX + 1) * 1_000_000_000) by (nonlinear_arith)
            requires
                secs >= i64::MAX + 1,
        ;
    }
    if secs < i64::MIN {
        assert(secs * 1_000_000_000 <= (i64::MIN - 1) * 1_000_000_000) by (nonlinear_arith)
            requires
                secs <= i64::MIN - 1,
        ;
    }
    if i64::MIN <= secs <= i64::MAX {
        assert(i64::MIN * 1_000_000_000 <= secs * 1_000_000_000 <= i64::MAX * 1_000_000_000)
            by (nonlinear_arith)
            requires
                i64::MIN <= secs <= i64::MAX,
        ;
    }
}

/// The instant `d` after `m`, where its seconds fit in `i64`.
pub fn moment_plus(m: Moment, d: Span) -> (r: Option<Moment>)
    requires
        m.wf(),
        d.wf(),
    ensures
        match r {
            Some(x) => x.wf() && x.ns() == m.ns() + d.ns(),
            None => !moment_fits(m.ns() + d.ns()),
        },
{
    let mut secs: i128 = m.secs as i128 + d.secs as i128;
    let mut nanos: u32 = m.nanos + d.nanos;
    if nanos >= NANOS_PER_SEC {
        secs = secs + 1;
        nanos = nanos - NANOS_PER_SEC;
    }
    assert(secs * 1_000_000_000 + nanos == m.ns() + d.ns());
    proof {
        lemma_fits(secs as int, nanos as int);
    }
    if secs < i64::MIN as i128 || secs > i64::MAX as i128 {
        return None;
    }
    Some(Moment { secs: secs as i64, nanos })
}

/// The instant `d` before `m`, where its seconds fit in `i64`.
pub fn moment_minus(m: Moment, d: Span) -> (r: Option<Moment>)
    requires
        m.wf(),
        d.wf(),
    ensures
        match r {
            Some(x) => x.wf() && x.ns() == m.ns() - d.ns(),
            None => !moment_fits(m.ns() - d.ns()),
        },
{
    let mut secs: i128 = m.secs as i128 - d.secs as i128;
    let mut nanos: u32 = m.nanos;
    if nanos < d.nanos {
        secs = secs - 1;
        nanos = nanos + (NANOS_PER_SEC - d.nanos);
    } else {
        nanos = nanos - d.nanos;
    }
    assert(secs * 1_000_000_000 + nanos == m.ns() - d.ns());
    proof {
        lemma_fits(secs as int, nanos as int);
    }
    if secs < i64::MIN as i128 || secs > i64::MAX as i128 {
        return None;
    }
    Some(Moment { secs: secs as i64, nanos })
}

/// The instant that a time text names: Unix seconds when it is an integer, else an ISO
/// date-time read as UTC; a leap second counts as the start of the next second.
pub open spec fn moment_of_text(s: Seq<char>) -> Option<Moment> {
    match i64_of(s) {
        Some(n) => Some(Moment { secs: n, nanos: 0 }),
        None => match datetime_of(s) {
            Some((secs, nanos)) => if nanos < NANOS_PER_SEC {
                Some(Moment { secs, nanos })
            } else if nanos - NANOS_PER_SEC < NANOS_PER_SEC && secs < i64::MAX {
                Some(Moment { secs: (secs + 1) as i64, nanos: (nanos - NANOS_PER_SEC) as u32 })
            } else {
                None
            },
            None => None,
        },
    }
}

/// A message followed by the text it is about.
pub open spec fn message_about(message: Seq<char>, s: Seq<char>) -> Seq<char> {
    message + s
}

/// A bad-request error whose one message is `message` followed by `s`.
pub fn bad_request_about(message: &str, s: &str) -> (r: ApiError)
    ensures
        r.status_code == BAD_REQUEST,
        r.messages() == seq![message_about(message@, s@)],
{
    let mut text = String::from_str(message);
    text.append(s);
    ApiError::new_bad_request(text.as_str())
}

/// Reads a time text as an instant; a text that names none is a bad request that quotes it.
pub fn parse_moment(s: &str) -> (r: Result<Moment, ApiError>)
    ensures
        match moment_of_text(s@) {
            Some(m) => r == Ok::<Moment, ApiError>(m),
            None => r matches Err(e) && e.status_code == BAD_REQUEST && e.messages() == seq![
                message_about("cannot parse time string: "@, s@),
            ],
        },
        r matches Ok(m) ==> m.wf(),
{
    if let Some(n) = parse_i64(s) {
        return Ok(Moment { secs: n, nanos: 0 });
    }
    match parse_datetime(s) {
        Some((secs, nanos)) => {
            if nanos < NANOS_PER_SEC {
                Ok(Moment { secs, nanos })
            } else if nanos - NANOS_PER_SEC < NANOS_PER_SEC && secs < i64::MAX {
                Ok(Moment { secs: secs + 1, nanos: nanos - NANOS_PER_SEC })
            } else {
                Err(bad_request_about("cannot parse time string: ", s))
            }
        },
        None => Err(bad_request_about("cannot parse time string: ", s)),
    }
}

/// The length of time that a duration text names, if it names one.
pub open spec fn span_of_text(s: Seq<char>) -> Option<Span> {
    match duration_of(s) {
        Some((secs, nanos)) => Some(Span { secs, nanos }),
        None => None,
    }
}

/// Whether a duration text is short enough to be read: at most `MAX_DURATION_DIGITS`
/// significant digits.
pub open spec fn duration_readable(s: Seq<char>) -> bool {
    significant_digits(s) <= MAX_DURATION_DIGITS
}

/// Reads a duration text. One with too many significant digits is a bad request that calls
/// it too long; one that names no duration is a bad request that calls it unreadable. Both
/// quote it.
pub fn parse_span(s: &str) -> (r: Result<Span, ApiError>)
    ensures
        !duration_readable(s@) ==> (r matches Err(e) && e.status_code == BAD_REQUEST
            && e.messages() == seq![message_about("time duration too long: "@, s@)]),
        duration_readable(s@) ==> match span_of_text(s@) {
            Some(d) => r == Ok::<Span, ApiError>(d),
            None => r matches Err(e) && e.status_code == BAD_REQUEST && e.messages() == seq![
                message_about("cannot parse time duration string: "@, s@),
            ],
        },
        r matches Ok(d) ==> d.wf(),
{
    if count_significant_digits(s) > MAX_DURATION_DIGITS {
        return Err(bad_request_about("time duration too long: ", s));
    }
    match parse_duration(s) {
        Some((secs, nanos)) => Ok(Span { secs, nanos }),
        None => Err(bad_request_about("cannot parse time duration string: ", s)),
    }
}

/// A time window; a missing end leaves that side open.
#[derive(Debug, Clone, Copy)]
pub struct TimeWindow {
    pub start: Option<Moment>,
    pub end: Option<Moment>,
}

pub open spec fn ns_of(m: Option<Moment>) -> Option<int> {
    match m {
        Some(x) => Some(x.ns()),
        None => None,
    }
}

/// The bounds, in nanoseconds, of the window that `start`, `end` and `duration` describe:
/// with one bound and a duration the other is derived from them, otherwise the duration
/// plays no part.
pub open spec fn resolved_window(
    start: Option<Moment>,
    end: Option<Moment>,
    duration: Option<Span>,
) -> (Option<int>, Option<int>) {
    match (start, end, duration) {
        (Some(s), None, Some(d)) => (Some(s.ns()), Some(s.ns() + d.ns())),
        (None, Some(e), Some(d)) => (Some(e.ns() - d.ns()), Some(e.ns())),
        _ => (ns_of(start), ns_of(end)),
    }
}

/// Both bounds of a resolved window fit as instants.
pub open spec fn window_fits(w: (Option<int>, Option<int>)) -> bool {
    (w.0 matches Some(a) ==> moment_fits(a)) && (w.1 matches Some(b) ==> moment_fits(b))
}

/// Derives the missing bound of a window from the other bound and a duration.
pub fn resolve_window(start: Option<Moment>, end: Option<Moment>, duration: Option<Span>) -> (r:
    Result<TimeWindow, ApiError>)
    requires
        start matches Some(s) ==> s.wf(),
        end matches Some(e) ==> e.wf(),
        duration matches Some(d) ==> d.wf(),
    ensures
        match r {
            Ok(w) => window_fits(resolved_window(start, end, duration)) && (ns_of(w.start), ns_of(
                w.end,
            )) == resolved_window(start, end, duration) && (w.start matches Some(s) ==> s.wf())
                && (w.end matches Some(e) ==> e.wf()),
            Err(e) => !window_fits(resolved_window(start, end, duration)) && e.status_code
                == BAD_REQUEST && e.messages() == seq!["time out of range"@],
        },
{
    proof {
        if let Some(s) = start {
            lemma_fits(s.secs as int, s.nanos as int);
        }
        if let Some(e) = end {
            lemma_fits(e.secs as int, e.nanos as int);
        }
    }
    match (start, end, duration) {
        (Some(s), None, Some(d)) => match moment_plus(s, d) {
            Some(e) => Ok(TimeWindow { start, end: Some(e) }),
            None => Err(ApiError::new_bad_request("time out of range")),
        },
        (None, Some(e), Some(d)) => match moment_minus(e, d) {
            Some(s) => Ok(TimeWindow { start: Some(s), end }),
            None => Err(ApiError::new_bad_request("time out of range")),
        },
        _ => Ok(TimeWindow { start, end }),
    }
}

/// With a start and a duration the end is the start plus the duration; with an end and a
/// duration the start is the end minus the duration; with both bounds the duration is
/// ignored.
pub proof fn window_resolution(t: Moment, u: Moment, d: Span)
    ensures
        resolved_window(Some(t), None, Some(d)) == (Some(t.ns()), Some(t.ns() + d.ns())),
        resolved_window(None, Some(t), Some(d)) == (Some(t.ns() - d.ns()), Some(t.ns())),
        resolved_window(Some(t), Some(u), Some(d)) == resolved_window(Some(t), Some(u), None),
        resolved_window(Some(t), Some(u), None) == (Some(t.ns()), Some(u.ns())),
{
}

} // verus!

verus! {

/// The instant at `ns` nanoseconds since the Unix epoch, split into seconds and the
/// nanoseconds beyond them.
pub open spec fn moment_at(ns: int) -> Moment {
    Moment { secs: (ns / 1_000_000_000) as i64, nanos: (ns % 1_000_000_000) as u32 }
}

/// Splitting the nanoseconds of an instant gives the instant back.
pub proof fn moment_at_ns(m: Moment)
    requires
        m.wf(),
    ensures
        moment_at(m.ns()) == m,
{
    vstd::arithmetic::div_mod::lemma_fundamental_div_mod_converse(
        m.ns(),
        1_000_000_000,
        m.secs as int,
        m.nanos as int,
    );
}

} // verus!
