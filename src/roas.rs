//! Route Origin Authorizations: the stored-procedure call that a search turns into, and the
//! normalization of the records it returns.
use crate::calendar::{date_text_of, format_date_days, today_days};
use crate::error::{ApiError, BAD_REQUEST};
use crate::intervals::{
    any_current, closed_all, intervals_text, merged, nested_views, normalize_intervals,
    normalized_days, DayInterval,
};
use crate::pagination::{normalize_page, normalized_page, page_window, window_of, MAX_PAGE_SIZE};
use crate::query::opt_view;
use crate::text::{decimal, decimal_text, escape_text, escaped, views};
use vstd::prelude::*;

verus! {

/// Page size of a ROA search that names none.
pub const ROAS_DEFAULT_PAGE_SIZE: usize = 100;

/// A ROA as a response carries it.
#[derive(Debug)]
pub struct RoasEntry {
    /// Autonomous system number.
    pub asn: u32,
    /// Longest prefix length that the ROA allows.
    pub max_len: u32,
    pub prefix: String,
    /// Trust anchor locator.
    pub tal: String,
    /// Whether the ROA was still valid on the day before today (UTC).
    pub current: bool,
    /// Days of validity, each as its first and last ISO date.
    pub date_ranges: Vec<Vec<String>>,
}

/// A ROA as the store returns it, with its validity as range literals.
#[derive(Debug)]
pub struct RoasRawEntry {
    pub asn: u32,
    pub max_len: u32,
    pub prefix: String,
    pub tal: String,
    pub date_ranges: Vec<String>,
}

/// Every validity range of `r` reads and every day of the normalized ranges can be written.
pub open spec fn roa_readable(r: RoasRawEntry, fix_gaps: bool) -> bool {
    normalized_days(views(r.date_ranges@), fix_gaps) matches Some(d) && intervals_text(d) is Some
}

/// `x` is the response entry of the stored ROA `r`, judged against the day `today`.
pub open spec fn roa_entry_of(x: RoasEntry, r: RoasRawEntry, fix_gaps: bool, today: int) -> bool {
    &&& x.asn == r.asn
    &&& x.max_len == r.max_len
    &&& x.prefix == r.prefix
    &&& x.tal == r.tal
    &&& x.current == any_current(closed_all(views(r.date_ranges@)).unwrap(), today)
    &&& Some(nested_views(x.date_ranges@)) == intervals_text(
        normalized_days(views(r.date_ranges@), fix_gaps).unwrap(),
    )
}

/// Each of `data` is the response entry of the stored ROA at the same place in `rows`,
/// with its ranges merged across one-day gaps and judged against the day `today`.
pub open spec fn entries_of(data: Seq<RoasEntry>, rows: Seq<RoasRawEntry>, today: int) -> bool {
    data.len() == rows.len() && forall|i: int|
        0 <= i < rows.len() ==> roa_entry_of(#[trigger] data[i], rows[i], true, today)
}

impl RoasRawEntry {
    /// The entry for a response, with `today` as the current day number: the validity
    /// ranges are closed, merged across one-day gaps when `fix_gaps` is set, and written as
    /// ISO dates. There is no entry when a range does not read or a day cannot be written.
    pub fn to_roas_entry_on(self, fix_gaps: bool, today: i32) -> (r: Option<RoasEntry>)
        ensures
            r is Some <==> roa_readable(self, fix_gaps),
            r matches Some(x) ==> roa_entry_of(x, self, fix_gaps, today as int),
            match normalized_days(views(self.date_ranges@), fix_gaps) {
                None => r is None,
                Some(days) => match intervals_text(days) {
                    None => r is None,
                    Some(t) => r matches Some(x) && x.asn == self.asn && x.max_len == self.max_len
                        && x.prefix == self.prefix && x.tal == self.tal && x.current
                        == any_current(closed_all(views(self.date_ranges@)).unwrap(), today as int)
                        && nested_views(x.date_ranges@) == t,
                },
            },
    {
        match normalize_intervals(&self.date_ranges, fix_gaps, today) {
            Some(n) => Some(
                RoasEntry {
                    asn: self.asn,
                    max_len: self.max_len,
                    prefix: self.prefix,
                    tal: self.tal,
                    current: n.current,
                    date_ranges: n.date_ranges,
                },
            ),
            None => None,
        }
    }

    /// The entry for a response, judged against today's date (UTC). There is an entry
    /// exactly when every range reads and every day can be written; an empty list of
    /// ranges gives an entry with no ranges that is not current.
    pub fn to_roas_entry(self, fix_gaps: bool) -> (r: Option<RoasEntry>)
        ensures
            normalized_days(views(self.date_ranges@), fix_gaps) is None ==> r is None,
            normalized_days(views(self.date_ranges@), fix_gaps) matches Some(d) && intervals_text(
                d,
            ) is None ==> r is None,
            normalized_days(views(self.date_ranges@), fix_gaps) matches Some(d) && intervals_text(
                d,
            ) is Some ==> r is Some,
            r matches Some(x) ==> x.asn == self.asn && x.max_len == self.max_len && x.prefix
                == self.prefix && x.tal == self.tal && intervals_text(
                normalized_days(views(self.date_ranges@), fix_gaps).unwrap(),
            ) == Some(nested_views(x.date_ranges@)) && exists|today: i32|
                x.current == #[trigger] any_current(
                    closed_all(views(self.date_ranges@)).unwrap(),
                    today as int,
                ),
            self.date_ranges@.len() == 0 ==> (r matches Some(x) && x.date_ranges@.len() == 0
                && !x.current),
    {
        let today = today_days();
        let ghost raws = views(self.date_ranges@);
        proof {
            if self.date_ranges@.len() == 0 {
                assert(raws =~= Seq::<Seq<char>>::empty());
                assert(closed_all(raws) == Some(Seq::<DayInterval>::empty()));
                assert(merged(Seq::<DayInterval>::empty()) =~= Seq::<DayInterval>::empty());
                assert(intervals_text(Seq::<DayInterval>::empty()) == Some(
                    Seq::<Seq<Seq<char>>>::empty(),
                ));
            }
        }
        let r = self.to_roas_entry_on(fix_gaps, today);
        proof {
            if r is Some {
                let x = r->Some_0;
                assert(x.current == any_current(closed_all(raws).unwrap(), today as int));
                assert(nested_views(x.date_ranges@).len() == x.date_ranges@.len());
            }
        }
        r
    }
}

/// A page of ROAs.
#[derive(Debug)]
pub struct RoasResponse {
    pub page: usize,
    pub page_size: usize,
    pub data: Vec<RoasEntry>,
}

impl RoasResponse {
    /// Wraps the entries of one page.
    pub fn new(page: usize, page_size: usize, data: Vec<RoasEntry>) -> (r: RoasResponse)
        ensures
            r.page == page,
            r.page_size == page_size,
            r.data == data,
    {
        RoasResponse { page, page_size, data }
    }

    /// The page of entries made from the stored ROAs, in their order, with their ranges
    /// merged across one-day gaps and `today` as the current day number; nothing when some
    /// ROA does not read.
    pub fn from_rows_on(page: usize, page_size: usize, rows: Vec<RoasRawEntry>, today: i32) -> (r:
        Option<RoasResponse>)
        ensures
            r is Some <==> forall|i: int| 0 <= i < rows@.len() ==> #[trigger] roa_readable(
                rows@[i],
                true,
            ),
            r matches Some(x) ==> x.page == page && x.page_size == page_size && x.data@.len()
                == rows@.len() && forall|i: int| 0 <= i < rows@.len() ==> roa_entry_of(
                #[trigger] x.data@[i],
                rows@[i],
                true,
                today as int,
            ),
    {
        let ghost all = rows@;
        let mut rest = rows;
        let mut data: Vec<RoasEntry> = Vec::new();
        while rest.len() > 0
            invariant
                all == rows@,
                data@.len() + rest@.len() == all.len(),
                rest@ == all.skip(data@.len() as int),
                forall|i: int| 0 <= i < data@.len() ==> #[trigger] roa_readable(all[i], true),
                forall|i: int| 0 <= i < data@.len() ==> roa_entry_of(
                    #[trigger] data@[i],
                    all[i],
                    true,
                    today as int,
                ),
            decreases rest.len(),
        {
            let row = rest.remove(0);
            proof {
                assert(row == all[data@.len() as int]);
                assert(rest@ =~= all.skip(data@.len() + 1int));
            }
            let ghost k = data@.len() as int;
            let entry = row.to_roas_entry_on(true, today);
            match entry {
                Some(x) => data.push(x),
                None => {
                    assert(!roa_readable(all[k], true));
                    return None;
                },
            }
        }
        Some(RoasResponse::new(page, page_size, data))
    }

    /// The page of entries made from the stored ROAs, judged against today's date (UTC).
    pub fn from_rows(page: usize, page_size: usize, rows: Vec<RoasRawEntry>) -> (r: Option<
        RoasResponse,
    >)
        ensures
            r is Some <==> forall|i: int| 0 <= i < rows@.len() ==> #[trigger] roa_readable(
                rows@[i],
                true,
            ),
            r matches Some(x) ==> x.page == page && x.page_size == page_size && x.data@.len()
                == rows@.len() && exists|today: i32| #[trigger]
                entries_of(x.data@, rows@, today as int),
    {
        let today = today_days();
        let ghost all = rows@;
        let r = RoasResponse::from_rows_on(page, page_size, rows, today);
        proof {
            if r is Some {
                assert(entries_of(r->Some_0.data@, all, today as int));
            }
        }
        r
    }
}

/// The parameters of a ROA search; each is optional.
#[derive(Debug)]
pub struct RoasSearchQuery {
    /// Exact autonomous system number.
    pub asn: Option<u32>,
    /// IP prefix that the ROA must cover, such as `1.1.1.0/24`.
    pub prefix: Option<String>,
    /// Trust anchor: `apnic`, `afrinic`, `lacnic`, `ripencc` or `arin`.
    pub tal: Option<String>,
    /// A day, `YYYY-MM-DD`, on which the ROA was valid.
    pub date: Option<String>,
    /// Whether the ROA is still valid.
    pub current: Option<bool>,
    /// Exact longest prefix length.
    pub max_len: Option<u32>,
}

/// A text as a JSON string, or the empty JSON string for none.
pub open spec fn quoted_or_empty(v: Option<Seq<char>>) -> Seq<char> {
    match v {
        Some(t) => seq!['"'] + escaped(t, true) + seq!['"'],
        None => seq!['"', '"'],
    }
}

/// A number in decimal, or `-1` for none.
pub open spec fn number_or_minus_one(v: Option<u32>) -> Seq<char> {
    match v {
        Some(n) => decimal(n as nat),
        None => seq!['-', '1'],
    }
}

/// The date arguments: a requested day, or for `current` the day before today as the day
/// on which the ROA must (or must not) be valid.
pub open spec fn date_arguments(
    date: Option<Seq<char>>,
    current: Option<bool>,
    yesterday: Seq<char>,
) -> Seq<char> {
    match current {
        None => "\"date\": "@ + quoted_or_empty(date) + ","@ + "\"not_date\": \"\""@,
        Some(true) => "\"date\": "@ + quoted_or_empty(Some(yesterday)) + ","@
            + "\"not_date\": \"\""@,
        Some(false) => "\"not_date\": "@ + quoted_or_empty(Some(yesterday)) + ","@
            + "\"date\": \"\""@,
    }
}

/// The argument object of the ROA stored procedure.
pub open spec fn roas_arguments(
    q: RoasSearchQuery,
    page_size: usize,
    offset: usize,
    yesterday: Seq<char>,
) -> Seq<char> {
    "{ "@ + "\"res_limit\": "@ + decimal(page_size as nat) + ","@ + "\"res_offset\": "@ + decimal(
        offset as nat,
    ) + ","@ + "\"prefix\": "@ + quoted_or_empty(opt_view(q.prefix)) + ","@ + "\"asn\": "@
        + number_or_minus_one(q.asn) + ","@ + "\"max_len\": "@ + number_or_minus_one(q.max_len)
        + ","@ + "\"nic\": "@ + quoted_or_empty(opt_view(q.tal)) + ","@ + date_arguments(
        opt_view(q.date),
        q.current,
        yesterday,
    ) + " }"@
}

/// A call of a stored procedure for one page.
#[derive(Debug)]
pub struct RpcCall {
    /// Name of the procedure.
    pub function: String,
    /// Its arguments, as a JSON object.
    pub arguments: String,
    pub page: usize,
    pub page_size: usize,
}

fn append_quoted(s: &mut String, v: &Option<String>)
    ensures
        final(s)@ == old(s)@ + quoted_or_empty(opt_view(*v)),
{
    proof {
        reveal_strlit("\"");
        reveal_strlit("\"\"");
    }
    match v {
        Some(t) => {
            s.append("\"");
            let e = escape_text(t.as_str(), true);
            s.append(e.as_str());
            s.append("\"");
        },
        None => {
            s.append("\"\"");
        },
    }
    assert(s@ =~= old(s)@ + quoted_or_empty(opt_view(*v)));
}

fn append_number(s: &mut String, v: Option<u32>)
    ensures
        final(s)@ == old(s)@ + number_or_minus_one(v),
{
    proof {
        reveal_strlit("-1");
    }
    match v {
        Some(n) => {
            let t = decimal_text(n as u64);
            s.append(t.as_str());
        },
        None => {
            s.append("-1");
        },
    }
    assert(s@ =~= old(s)@ + number_or_minus_one(v));
}

/// The stored-procedure call of a ROA search, with `yesterday` as the ISO date of the day
/// before today. The page size defaults to `ROAS_DEFAULT_PAGE_SIZE` and is at most
/// `MAX_PAGE_SIZE`; a page whose rows cannot be indexed is a bad request.
pub fn roas_call(q: &RoasSearchQuery, page: Option<usize>, page_size: Option<usize>, yesterday: &str) -> (r:
    Result<RpcCall, ApiError>)
    ensures
        ({
            let (p, s) = normalized_page(page, page_size, ROAS_DEFAULT_PAGE_SIZE, MAX_PAGE_SIZE);
            match window_of(p, s) {
                None => r matches Err(e) && e.status_code == BAD_REQUEST,
                Some(w) => r matches Ok(c) && c.function@ == "query_history"@ && c.page == p
                    && c.page_size == s && c.arguments@ == roas_arguments(
                    *q,
                    s,
                    w.offset,
                    yesterday@,
                ),
            }
        }),
{
    let (p, s) = normalize_page(page, page_size, ROAS_DEFAULT_PAGE_SIZE, MAX_PAGE_SIZE);
    let w = match page_window(p, s) {
        Some(w) => w,
        None => return Err(ApiError::new_bad_request("page out of range")),
    };
    let mut a = String::from_str("{ ");
    a.append("\"res_limit\": ");
    a.append(decimal_text(s as u64).as_str());
    a.append(",");
    a.append("\"res_offset\": ");
    a.append(decimal_text(w.offset as u64).as_str());
    a.append(",");
    a.append("\"prefix\": ");
    append_quoted(&mut a, &q.prefix);
    a.append(",");
    a.append("\"asn\": ");
    append_number(&mut a, q.asn);
    a.append(",");
    a.append("\"max_len\": ");
    append_number(&mut a, q.max_len);
    a.append(",");
    a.append("\"nic\": ");
    append_quoted(&mut a, &q.tal);
    a.append(",");
    let ghost before = a@;
    let y = Some(String::from_str(yesterday));
    match q.current {
        None => {
            a.append("\"date\": ");
            append_quoted(&mut a, &q.date);
            a.append(",");
            a.append("\"not_date\": \"\"");
        },
        Some(true) => {
            a.append("\"date\": ");
            append_quoted(&mut a, &y);
            a.append(",");
            a.append("\"not_date\": \"\"");
        },
        Some(false) => {
            a.append("\"not_date\": ");
            append_quoted(&mut a, &y);
            a.append(",");
            a.append("\"date\": \"\"");
        },
    }
    assert(a@ =~= before + date_arguments(opt_view(q.date), q.current, yesterday@));
    a.append(" }");
    assert(a@ =~= roas_arguments(*q, s, w.offset, yesterday@));
    Ok(RpcCall { function: String::from_str("query_history"), arguments: a, page: p, page_size: s })
}

/// The stored-procedure call of a ROA search, judged against today's date (UTC).
pub fn roas_request(q: &RoasSearchQuery, page: Option<usize>, page_size: Option<usize>) -> (r:
    Result<RpcCall, ApiError>)
    ensures
        ({
            let (p, s) = normalized_page(page, page_size, ROAS_DEFAULT_PAGE_SIZE, MAX_PAGE_SIZE);
            &&& window_of(p, s) is None ==> r is Err
            &&& r matches Ok(c) ==> c.function@ == "query_history"@ && c.page == p && c.page_size
                == s && window_of(p, s) is Some && exists|day: i32| #[trigger]
                date_text_of(day) is Some && c.arguments@ == roas_arguments(
                *q,
                s,
                window_of(p, s).unwrap().offset,
                date_text_of(day).unwrap(),
            )
        }),
{
    let today = today_days();
    if today == i32::MIN {
        return Err(ApiError::new_internal("date out of range"));
    }
    let yesterday = match format_date_days(today - 1) {
        Some(t) => t,
        None => return Err(ApiError::new_internal("date out of range")),
    };
    let r = roas_call(q, page, page_size, yesterday.as_str());
    assert(date_text_of((today - 1) as i32) is Some);
    r
}

} // verus!
