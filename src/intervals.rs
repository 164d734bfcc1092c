//! Validity intervals of ROAs: reading the store's range literals, closing exclusive
//! endpoints, bridging one-day gaps, and deciding whether a record is current.
use crate::calendar::{date_days_of, date_text_of, format_date_days, parse_date_days};
use crate::text::{
    in_class, is_ascii_punctuation, lemma_first_index, trim_end, trim_start, split_on, split_text, trim_class, trimmed, views, CharClass,
};
use vstd::prelude::*;

verus! {

/// A closed interval of days, both ends included, as day numbers.
#[derive(Debug, Clone, Copy)]
pub struct DayInterval {
    pub start: i64,
    pub end: i64,
}

/// A range literal taken apart: the two date texts and whether each end is exclusive.
#[derive(Debug)]
pub struct RawInterval {
    pub start: String,
    pub end: String,
    pub start_exclusive: bool,
    pub end_exclusive: bool,
}

/// The dates of a range literal such as `[2022-01-01,2022-01-10)`: the text between the
/// punctuation at both ends, split at each comma.
pub open spec fn literal_pieces(raw: Seq<char>) -> Seq<Seq<char>> {
    split_on(trimmed(raw, CharClass::AsciiPunctuation), ',')
}

pub open spec fn opens_exclusive(raw: Seq<char>) -> bool {
    raw.len() > 0 && raw[0] == '('
}

pub open spec fn closes_exclusive(raw: Seq<char>) -> bool {
    raw.len() > 0 && raw.last() == ')'
}

/// Takes a range literal apart; there is nothing to take when it holds fewer than two dates.
pub fn parse_range_literal(raw: &str) -> (r: Option<RawInterval>)
    ensures
        match r {
            Some(x) => {
                &&& literal_pieces(raw@).len() >= 2
                &&& x.start@ == literal_pieces(raw@)[0]
                &&& x.end@ == literal_pieces(raw@)[1]
                &&& x.start_exclusive == opens_exclusive(raw@)
                &&& x.end_exclusive == closes_exclusive(raw@)
            },
            None => literal_pieces(raw@).len() < 2,
        },
{
    let n = raw.unicode_len();
    let start_exclusive = n > 0 && raw.get_char(0) == '(';
    let end_exclusive = n > 0 && raw.get_char(n - 1) == ')';
    let inner = trim_class(raw, CharClass::AsciiPunctuation);
    let pieces = split_text(inner.as_str(), ',');
    if pieces.len() < 2 {
        return None;
    }
    proof {
        assert(views(pieces@)[0] == pieces@[0]@);
        assert(views(pieces@)[1] == pieces@[1]@);
    }
    Some(
        RawInterval {
            start: pieces[0].clone(),
            end: pieces[1].clone(),
            start_exclusive,
            end_exclusive,
        },
    )
}

/// The closed interval of a raw one: an exclusive start moves a day later, an exclusive
/// end a day earlier.
pub open spec fn close(a: i32, b: i32, start_exclusive: bool, end_exclusive: bool) -> DayInterval {
    DayInterval {
        start: (a + if start_exclusive {
            1int
        } else {
            0int
        }) as i64,
        end: (b - if end_exclusive {
            1int
        } else {
            0int
        }) as i64,
    }
}

/// Closes an interval whose ends may be exclusive.
pub fn close_interval(a: i32, b: i32, start_exclusive: bool, end_exclusive: bool) -> (r:
    DayInterval)
    ensures
        r == close(a, b, start_exclusive, end_exclusive),
        r.start == a + if start_exclusive {
            1int
        } else {
            0int
        },
        r.end == b - if end_exclusive {
            1int
        } else {
            0int
        },
{
    let start: i64 = if start_exclusive {
        a as i64 + 1
    } else {
        a as i64
    };
    let end: i64 = if end_exclusive {
        b as i64 - 1
    } else {
        b as i64
    };
    DayInterval { start, end }
}

/// The closed interval that a range literal stands for, if both of its dates read.
pub open spec fn closed_of(raw: Seq<char>) -> Option<DayInterval> {
    let p = literal_pieces(raw);
    if p.len() < 2 {
        None
    } else {
        match (date_days_of(p[0]), date_days_of(p[1])) {
            (Some(a), Some(b)) => Some(close(a, b, opens_exclusive(raw), closes_exclusive(raw))),
            _ => None,
        }
    }
}

/// The closed intervals of all range literals, if each of them reads.
pub open spec fn closed_all(raws: Seq<Seq<char>>) -> Option<Seq<DayInterval>> {
    if forall|i: int| 0 <= i < raws.len() ==> (#[trigger] closed_of(raws[i])) is Some {
        Some(Seq::new(raws.len(), |i: int| closed_of(raws[i]).unwrap()))
    } else {
        None
    }
}

/// Reads a range literal as a closed interval of days.
pub fn close_range_literal(raw: &str) -> (r: Option<DayInterval>)
    ensures
        r == closed_of(raw@),
{
    match parse_range_literal(raw) {
        None => None,
        Some(x) => {
            let a = parse_date_days(x.start.as_str());
            let b = parse_date_days(x.end.as_str());
            match (a, b) {
                (Some(a), Some(b)) => Some(
                    close_interval(a, b, x.start_exclusive, x.end_exclusive),
                ),
                _ => None,
            }
        },
    }
}

/// Reads every range literal as a closed interval of days, in the given order.
pub fn close_range_literals(raws: &Vec<String>) -> (r: Option<Vec<DayInterval>>)
    ensures
        match r {
            Some(v) => closed_all(views(raws@)) == Some(v@),
            None => closed_all(views(raws@)) is None,
        },
{
    let ghost rs = views(raws@);
    let mut out: Vec<DayInterval> = Vec::new();
    let mut i: usize = 0;
    while i < raws.len()
        invariant
            i <= raws@.len(),
            rs == views(raws@),
            out@.len() == i,
            forall|j: int| 0 <= j < i ==> (#[trigger] closed_of(rs[j])) is Some,
            forall|j: int| 0 <= j < i ==> out@[j] == closed_of(rs[j]).unwrap(),
        decreases raws.len() - i,
    {
        match close_range_literal(raws[i].as_str()) {
            Some(d) => {
                out.push(d);
            },
            None => {
                assert(closed_of(rs[i as int]) is None);
                return None;
            },
        }
        i = i + 1;
    }
    assert(out@ =~= Seq::new(rs.len(), |j: int| closed_of(rs[j]).unwrap()));
    Some(out)
}

/// The intervals that `cur` and `rest` make once every interval that begins two days after
/// the running one ends, so that a single day lies between them, is joined to it.
pub open spec fn merge_run(cur: DayInterval, rest: Seq<DayInterval>) -> Seq<DayInterval>
    decreases rest.len(),
{
    if rest.len() == 0 {
        seq![cur]
    } else if rest[0].start == cur.end + 2 {
        merge_run(DayInterval { start: cur.start, end: rest[0].end }, rest.drop_first())
    } else {
        seq![cur] + merge_run(rest[0], rest.drop_first())
    }
}

/// `s` with each one-day gap between consecutive intervals bridged.
pub open spec fn merged(s: Seq<DayInterval>) -> Seq<DayInterval> {
    if s.len() == 0 {
        Seq::empty()
    } else {
        merge_run(s[0], s.drop_first())
    }
}

/// No interval of `s` begins two days after the one before it ends.
pub open spec fn gap_free(s: Seq<DayInterval>) -> bool {
    forall|i: int| 0 <= i < s.len() - 1 ==> #[trigger] s[i + 1].start != s[i].end + 2
}

/// Bridges the one-day gaps between consecutive intervals, walking them in the given order.
pub fn merge_gaps(v: &Vec<DayInterval>) -> (r: Vec<DayInterval>)
    ensures
        r@ == merged(v@),
{
    let n = v.len();
    let mut out: Vec<DayInterval> = Vec::new();
    if n == 0 {
        return out;
    }
    let mut cur = v[0];
    let mut i: usize = 1;
    assert(v@.subrange(1, n as int) =~= v@.drop_first());
    assert(out@ + merge_run(cur, v@.subrange(1, n as int)) =~= merged(v@));
    while i < n
        invariant
            1 <= i <= n,
            n == v@.len(),
            out@ + merge_run(cur, v@.subrange(i as int, n as int)) == merged(v@),
        decreases n - i,
    {
        let next = v[i];
        let ghost rest = v@.subrange(i as int, n as int);
        assert(rest.drop_first() =~= v@.subrange(i + 1, n as int));
        assert(rest[0] == next);
        if next.start >= i64::MIN + 2 && cur.end == next.start - 2 {
            cur = DayInterval { start: cur.start, end: next.end };
        } else {
            assert(out@.push(cur) + merge_run(next, rest.drop_first()) =~= out@ + (seq![cur]
                + merge_run(next, rest.drop_first())));
            out.push(cur);
            cur = next;
        }
        i = i + 1;
    }
    assert(v@.subrange(n as int, n as int) =~= Seq::<DayInterval>::empty());
    assert(out@.push(cur) =~= out@ + seq![cur]);
    out.push(cur);
    out
}

/// Some interval of `s` ends on the day before `today` or later.
pub open spec fn any_current(s: Seq<DayInterval>, today: int) -> bool {
    exists|i: int| 0 <= i < s.len() && s[i].end >= today - 1
}

/// Whether some interval ends on the day before `today` or later.
pub fn is_current(v: &Vec<DayInterval>, today: i32) -> (r: bool)
    ensures
        r == any_current(v@, today as int),
{
    let mut i: usize = 0;
    while i < v.len()
        invariant
            i <= v@.len(),
            forall|j: int| 0 <= j < i ==> v@[j].end < today - 1,
        decreases v.len() - i,
    {
        if v[i].end >= today as i64 - 1 {
            return true;
        }
        i = i + 1;
    }
    false
}

/// The two ISO date texts of an interval, if chrono can write both of its days.
pub open spec fn interval_text(d: DayInterval) -> Option<Seq<Seq<char>>> {
    if i32::MIN <= d.start <= i32::MAX && i32::MIN <= d.end <= i32::MAX {
        match (date_text_of(d.start as i32), date_text_of(d.end as i32)) {
            (Some(a), Some(b)) => Some(seq![a, b]),
            _ => None,
        }
    } else {
        None
    }
}

/// The texts of all intervals, if each of them can be written.
pub open spec fn intervals_text(s: Seq<DayInterval>) -> Option<Seq<Seq<Seq<char>>>> {
    if forall|i: int| 0 <= i < s.len() ==> (#[trigger] interval_text(s[i])) is Some {
        Some(Seq::new(s.len(), |i: int| interval_text(s[i]).unwrap()))
    } else {
        None
    }
}

/// The views of a list of string lists.
pub open spec fn nested_views(v: Seq<Vec<String>>) -> Seq<Seq<Seq<char>>> {
    v.map_values(|x: Vec<String>| views(x@))
}

/// Writes a day number as an ISO date.
fn day_text(day: i64) -> (r: Option<String>)
    ensures
        match r {
            Some(t) => i32::MIN <= day <= i32::MAX && date_text_of(day as i32) == Some(t@),
            None => !(i32::MIN <= day <= i32::MAX) || date_text_of(day as i32) is None,
        },
{
    if day < i32::MIN as i64 || day > i32::MAX as i64 {
        return None;
    }
    format_date_days(day as i32)
}

/// Writes each interval as its two ISO dates.
pub fn format_intervals(v: &Vec<DayInterval>) -> (r: Option<Vec<Vec<String>>>)
    ensures
        match r {
            Some(t) => intervals_text(v@) == Some(nested_views(t@)),
            None => intervals_text(v@) is None,
        },
{
    let mut out: Vec<Vec<String>> = Vec::new();
    let mut i: usize = 0;
    while i < v.len()
        invariant
            i <= v@.len(),
            out@.len() == i,
            forall|j: int| 0 <= j < i ==> (#[trigger] interval_text(v@[j])) is Some,
            forall|j: int| 0 <= j < i ==> views(out@[j]@) == interval_text(v@[j]).unwrap(),
        decreases v.len() - i,
    {
        let d = v[i];
        let a = day_text(d.start);
        let b = day_text(d.end);
        match (a, b) {
            (Some(a), Some(b)) => {
                let mut pair: Vec<String> = Vec::new();
                pair.push(a);
                pair.push(b);
                assert(views(pair@) =~= interval_text(d).unwrap());
                out.push(pair);
            },
            _ => {
                assert(interval_text(v@[i as int]) is None);
                return None;
            },
        }
        i = i + 1;
    }
    assert(nested_views(out@) =~= Seq::new(v@.len(), |j: int| interval_text(v@[j]).unwrap()));
    Some(out)
}

/// Validity intervals ready for a response.
#[derive(Debug)]
pub struct NormalizedIntervals {
    /// Whether some interval ends on the day before today or later.
    pub current: bool,
    /// Each interval as its first and last day, in ISO form.
    pub date_ranges: Vec<Vec<String>>,
}

/// The closed intervals of `raws`, merged across one-day gaps when `fix_gaps` is set.
pub open spec fn normalized_days(raws: Seq<Seq<char>>, fix_gaps: bool) -> Option<
    Seq<DayInterval>,
> {
    match closed_all(raws) {
        Some(c) => Some(
            if fix_gaps {
                merged(c)
            } else {
                c
            },
        ),
        None => None,
    }
}

/// Normalizes the range literals of one record: each is closed, the one-day gaps are
/// bridged when `fix_gaps` is set, and the record is current when some closed interval
/// ends on the day before `today` or later. There is no result when a literal does not
/// read or a day cannot be written.
pub fn normalize_intervals(raws: &Vec<String>, fix_gaps: bool, today: i32) -> (r: Option<
    NormalizedIntervals,
>)
    ensures
        match normalized_days(views(raws@), fix_gaps) {
            None => r is None,
            Some(days) => match intervals_text(days) {
                None => r is None,
                Some(t) => r matches Some(x) && x.current == any_current(
                    closed_all(views(raws@)).unwrap(),
                    today as int,
                ) && nested_views(x.date_ranges@) == t,
            },
        },
{
    let closed = match close_range_literals(raws) {
        Some(c) => c,
        None => return None,
    };
    let current = is_current(&closed, today);
    let days = if fix_gaps {
        merge_gaps(&closed)
    } else {
        closed
    };
    match format_intervals(&days) {
        Some(date_ranges) => Some(NormalizedIntervals { current, date_ranges }),
        None => None,
    }
}

} // verus!

verus! {

proof fn lemma_merge_run_shape(cur: DayInterval, rest: Seq<DayInterval>)
    ensures
        merge_run(cur, rest).len() >= 1,
        merge_run(cur, rest)[0].start == cur.start,
        gap_free(merge_run(cur, rest)),
    decreases rest.len(),
{
    if rest.len() == 0 {
    } else if rest[0].start == cur.end + 2 {
        lemma_merge_run_shape(DayInterval { start: cur.start, end: rest[0].end }, rest.drop_first());
    } else {
        let tail = merge_run(rest[0], rest.drop_first());
        lemma_merge_run_shape(rest[0], rest.drop_first());
        let s = seq![cur] + tail;
        assert forall|i: int| 0 <= i < s.len() - 1 implies #[trigger] s[i + 1].start != s[i].end
            + 2 by {
            if i > 0 {
                assert(s[i] == tail[i - 1]);
                assert(s[i + 1] == tail[(i - 1) + 1]);
            }
        }
    }
}

proof fn lemma_merge_run_gap_free(cur: DayInterval, rest: Seq<DayInterval>)
    requires
        gap_free(seq![cur] + rest),
    ensures
        merge_run(cur, rest) == seq![cur] + rest,
    decreases rest.len(),
{
    let s = seq![cur] + rest;
    if rest.len() > 0 {
        assert(s[0int + 1].start != s[0int].end + 2);
        assert(s[1] == rest[0]);
        let t = seq![rest[0]] + rest.drop_first();
        assert(t =~= rest);
        assert forall|i: int| 0 <= i < t.len() - 1 implies #[trigger] t[i + 1].start != t[i].end
            + 2 by {
            assert(s[(i + 1) + 1].start != s[i + 1].end + 2);
        }
        lemma_merge_run_gap_free(rest[0], rest.drop_first());
        assert(seq![cur] + t =~= s);
    }
}

/// After bridging, no one-day gap is left between consecutive intervals.
pub proof fn merged_is_gap_free(s: Seq<DayInterval>)
    ensures
        gap_free(merged(s)),
{
    if s.len() > 0 {
        lemma_merge_run_shape(s[0], s.drop_first());
    }
}

/// Intervals with no one-day gap between consecutive ones come out of bridging unchanged.
pub proof fn gap_free_is_unchanged(s: Seq<DayInterval>)
    requires
        gap_free(s),
    ensures
        merged(s) == s,
{
    if s.len() > 0 {
        assert(seq![s[0]] + s.drop_first() =~= s);
        lemma_merge_run_gap_free(s[0], s.drop_first());
    }
}

/// Bridging the gaps of intervals that were bridged already changes nothing.
pub proof fn merge_is_idempotent(s: Seq<DayInterval>)
    ensures
        merged(merged(s)) == merged(s),
{
    merged_is_gap_free(s);
    gap_free_is_unchanged(merged(s));
}

} // verus!

verus! {

/// A record is current when one of its intervals ends yesterday or later, and is not when
/// every interval ended two or more days ago.
pub proof fn currency(s: Seq<DayInterval>, today: int, i: int)
    ensures
        0 <= i < s.len() && s[i].end >= today - 1 ==> any_current(s, today),
        (forall|j: int| 0 <= j < s.len() ==> s[j].end <= today - 2) ==> !any_current(s, today),
{
}

} // verus!

verus! {

/// A date text that a range literal can hold: not empty, no punctuation at either end and
/// no comma inside.
pub open spec fn plain_date_text(d: Seq<char>) -> bool {
    &&& d.len() > 0
    &&& !is_ascii_punctuation(d[0])
    &&& !is_ascii_punctuation(d.last())
    &&& forall|k: int| 0 <= k < d.len() ==> d[k] != ','
}

proof fn lemma_no_comma(d: Seq<char>)
    requires
        plain_date_text(d),
    ensures
        split_on(d, ',') == seq![d],
{
    lemma_first_index(d, ',', d.len() as int);
}

proof fn lemma_literal_trimmed(b0: char, d0: Seq<char>, d1: Seq<char>, b1: char)
    requires
        b0 == '[' || b0 == '(',
        b1 == ']' || b1 == ')',
        plain_date_text(d0),
        plain_date_text(d1),
    ensures
        trimmed(seq![b0] + d0 + seq![','] + d1 + seq![b1], CharClass::AsciiPunctuation) == d0
            + seq![','] + d1,
{
    let k = CharClass::AsciiPunctuation;
    let inner = d0 + seq![','] + d1;
    let tail = inner + seq![b1];
    let raw = seq![b0] + d0 + seq![','] + d1 + seq![b1];
    assert(raw =~= seq![b0] + tail);
    assert(raw.drop_first() =~= tail);
    assert(in_class(raw[0], k));
    assert(trim_start(raw, k) == trim_start(tail, k));
    assert(tail[0] == d0[0]);
    assert(trim_start(tail, k) == tail);
    assert(tail.drop_last() =~= inner);
    assert(in_class(tail.last(), k));
    assert(trim_end(tail, k) == trim_end(inner, k));
    assert(inner.last() == d1.last());
    assert(trim_end(inner, k) == inner);
    assert(trimmed(raw, k) == inner);
}

/// A range literal `b0 d0 , d1 b1`, with `[` or `(` before and `]` or `)` after two dates,
/// stands for the days of `d0` and `d1`, the first moved a day later when it opens with
/// `(` and the last a day earlier when it closes with `)`.
pub proof fn range_literal_closes(b0: char, d0: Seq<char>, d1: Seq<char>, b1: char)
    requires
        b0 == '[' || b0 == '(',
        b1 == ']' || b1 == ')',
        plain_date_text(d0),
        plain_date_text(d1),
    ensures
        closed_of(seq![b0] + d0 + seq![','] + d1 + seq![b1]) == match (
            date_days_of(d0),
            date_days_of(d1),
        ) {
            (Some(a), Some(b)) => Some(close(a, b, b0 == '(', b1 == ')')),
            _ => None::<DayInterval>,
        },
{
    let inner = d0 + seq![','] + d1;
    let raw = seq![b0] + d0 + seq![','] + d1 + seq![b1];
    lemma_literal_trimmed(b0, d0, d1, b1);
    assert forall|j: int| 0 <= j < d0.len() implies inner[j] != ',' by {
        assert(inner[j] == d0[j]);
    }
    assert(inner[d0.len() as int] == ',');
    lemma_first_index(inner, ',', d0.len() as int);
    assert(inner.take(d0.len() as int) =~= d0);
    assert(inner.skip(d0.len() + 1int) =~= d1);
    lemma_no_comma(d1);
    assert(literal_pieces(raw) =~= seq![d0, d1]);
    assert(opens_exclusive(raw) == (b0 == '('));
    assert(raw.last() == b1);
}

} // verus!
