//! Listings of route-collector data files: the query a search turns into, and the entries
//! it returns.
use crate::calendar::datetime_text_of;
use crate::error::{ApiError, BAD_REQUEST};
use crate::pagination::{
    normalized_page, page_rows, store_range_of, window_of, Pagination, MAX_PAGE_SIZE,
};
use crate::query::{add_filter, add_filters, filter_views, opt_view, Filter, FilterView, StoreQuery};
use crate::text::{
    contains_text, has_text, lower_of, lowercase, same_text, trimmed_entries, trimmed_list,
};
use crate::timewindow::{
    bad_request_about, message_about, moment_at, moment_at_ns, moment_of_text, parse_moment,
    parse_span, resolve_window, resolved_window, span_of_text, duration_readable, window_fits, Moment, Span,
};
use crate::calendar::format_datetime;
use vstd::prelude::*;

verus! {

/// How a field with a fixed vocabulary treats a value outside it.
#[derive(Debug, Clone, Copy, PartialEq, Eq, Structural)]
pub enum Vocabulary {
    /// The value is ignored and adds no predicate.
    Lenient,
    /// The value makes the request a bad request.
    Strict,
}

/// One data file of a route collector.
#[derive(Debug)]
pub struct BrokerEntry {
    pub ts_start: String,
    pub ts_end: String,
    pub project: String,
    pub collector: String,
    pub data_type: String,
    pub url: String,
    pub size: u32,
}

/// A data file as the store lists it.
#[derive(Debug)]
pub struct BrokerRawEntry {
    pub ts_start: String,
    pub ts_end: String,
    pub collector_id: String,
    pub data_type: String,
    pub url: String,
    pub rough_size: u32,
    pub exact_size: u32,
}

/// The project that runs a collector: RIPE RIS collectors have `rrc` in their names.
pub open spec fn project_of_collector(collector: Seq<char>) -> Seq<char> {
    if contains_text(collector, "rrc"@) {
        "riperis"@
    } else {
        "route-views"@
    }
}

/// `e` is the response entry of the listed file `r`.
pub open spec fn entry_of(e: BrokerEntry, r: BrokerRawEntry) -> bool {
    &&& e.ts_start == r.ts_start
    &&& e.ts_end == r.ts_end
    &&& e.project@ == project_of_collector(r.collector_id@)
    &&& e.collector == r.collector_id
    &&& e.data_type == r.data_type
    &&& e.url == r.url
    &&& e.size == r.rough_size
}

impl BrokerRawEntry {
    /// The entry for a response: the project follows from the collector, and the size is
    /// the rough one.
    pub fn to_entry(self) -> (r: BrokerEntry)
        ensures
            entry_of(r, self),
            r.ts_start == self.ts_start,
            r.ts_end == self.ts_end,
            r.project@ == project_of_collector(self.collector_id@),
            r.collector == self.collector_id,
            r.data_type == self.data_type,
            r.url == self.url,
            r.size == self.rough_size,
    {
        let project = if has_text(self.collector_id.as_str(), "rrc") {
            String::from_str("riperis")
        } else {
            String::from_str("route-views")
        };
        BrokerEntry {
            ts_start: self.ts_start,
            ts_end: self.ts_end,
            project,
            collector: self.collector_id,
            data_type: self.data_type,
            url: self.url,
            size: self.rough_size,
        }
    }
}

/// A page of data files.
#[derive(Debug)]
pub struct BrokerResponse {
    pub page: usize,
    pub page_size: usize,
    /// The number of entries on this page.
    pub count: usize,
    pub data: Vec<BrokerEntry>,
}

impl BrokerResponse {
    /// Wraps the entries of one page, counting them.
    pub fn new(page: usize, page_size: usize, data: Vec<BrokerEntry>) -> (r: BrokerResponse)
        ensures
            r.page == page,
            r.page_size == page_size,
            r.count == data@.len(),
            r.data == data,
    {
        let count = data.len();
        BrokerResponse { page, page_size, count, data }
    }

    /// The page of entries made from the listed files, in their order.
    pub fn from_rows(page: usize, page_size: usize, rows: Vec<BrokerRawEntry>) -> (r:
        BrokerResponse)
        ensures
            r.page == page,
            r.page_size == page_size,
            r.count == rows@.len(),
            r.data@.len() == rows@.len(),
            forall|i: int| 0 <= i < rows@.len() ==> entry_of(#[trigger] r.data@[i], rows@[i]),
    {
        let ghost all = rows@;
        let mut rest = rows;
        let mut data: Vec<BrokerEntry> = Vec::new();
        while rest.len() > 0
            invariant
                all == rows@,
                data@.len() + rest@.len() == all.len(),
                rest@ == all.skip(data@.len() as int),
                forall|i: int| 0 <= i < data@.len() ==> entry_of(#[trigger] data@[i], all[i]),
            decreases rest.len(),
        {
            let row = rest.remove(0);
            proof {
                assert(row == all[data@.len() as int]);
                assert(rest@ =~= all.skip(data@.len() + 1int));
            }
            data.push(row.to_entry());
        }
        BrokerResponse::new(page, page_size, data)
    }
}

/// The parameters of a search for data files; each is optional.
#[derive(Debug)]
pub struct BrokerSearchQuery {
    /// Start of the time window: Unix seconds or an ISO date-time.
    pub ts_start: Option<String>,
    /// End of the time window: Unix seconds or an ISO date-time.
    pub ts_end: Option<String>,
    /// Length of the window after `ts_start` or before `ts_end`, such as `2h30m`.
    pub duration: Option<String>,
    /// Collector project: `route-views` or `riperis`, or one of their other names.
    pub project: Option<String>,
    /// Comma-separated collector names.
    pub collectors: Option<String>,
    /// `update` or `rib`, or one of their other names.
    pub data_type: Option<String>,
}

/// The collector-name pattern of a project, under any of the names it goes by.
pub open spec fn project_pattern(p: Seq<char>) -> Option<Seq<char>> {
    if p == "route-views"@ || p == "routeviews"@ || p == "rv"@ {
        Some("route-views%"@)
    } else if p == "ripe"@ || p == "ripencc"@ || p == "riperis"@ || p == "ris"@ {
        Some("rrc%"@)
    } else {
        None
    }
}

/// The collector-name pattern of a project, if the name is known.
pub fn project_collector_pattern(project: &str) -> (r: Option<&'static str>)
    ensures
        match r {
            Some(t) => project_pattern(project@) == Some(t@),
            None => project_pattern(project@) is None,
        },
{
    if same_text(project, "route-views") || same_text(project, "routeviews") || same_text(
        project,
        "rv",
    ) {
        Some("route-views%")
    } else if same_text(project, "ripe") || same_text(project, "ripencc") || same_text(
        project,
        "riperis",
    ) || same_text(project, "ris") {
        Some("rrc%")
    } else {
        None
    }
}

/// The stored data type that a lowercase name stands for.
pub open spec fn data_type_value(t: Seq<char>) -> Option<Seq<char>> {
    if t == "update"@ || t == "updates"@ || t == "u"@ {
        Some("update"@)
    } else if t == "rib"@ || t == "ribs"@ || t == "r"@ {
        Some("rib"@)
    } else {
        None
    }
}

/// The stored data type that a lowercase name stands for, if the name is known.
pub fn data_type_name(lowered: &str) -> (r: Option<&'static str>)
    ensures
        match r {
            Some(t) => data_type_value(lowered@) == Some(t@),
            None => data_type_value(lowered@) is None,
        },
{
    if same_text(lowered, "update") || same_text(lowered, "updates") || same_text(lowered, "u") {
        Some("update")
    } else if same_text(lowered, "rib") || same_text(lowered, "ribs") || same_text(lowered, "r") {
        Some("rib")
    } else {
        None
    }
}

/// The predicates that a vocabulary field adds: the mapped one, or, for a value outside
/// the vocabulary, none when lenient and an error that quotes it when strict.
pub open spec fn vocabulary_part(
    value: Option<Seq<char>>,
    mapped: Option<FilterView>,
    policy: Vocabulary,
    message: Seq<char>,
) -> Result<Seq<FilterView>, Seq<char>> {
    match value {
        None => Ok(seq![]),
        Some(v) => match mapped {
            Some(f) => Ok(seq![f]),
            None => if policy == Vocabulary::Strict {
                Err(message_about(message, v))
            } else {
                Ok(seq![])
            },
        },
    }
}

/// The project predicate of a search.
pub open spec fn project_part(project: Option<Seq<char>>, policy: Vocabulary) -> Result<
    Seq<FilterView>,
    Seq<char>,
> {
    let mapped = match project {
        Some(p) => match project_pattern(p) {
            Some(pat) => Some(FilterView::ILike { column: "collector_id"@, pattern: pat }),
            None => None,
        },
        None => None,
    };
    vocabulary_part(project, mapped, policy, "unrecognized project: "@)
}

/// The data-type predicate of a search; the name is compared in lowercase.
pub open spec fn data_type_part(data_type: Option<Seq<char>>, policy: Vocabulary) -> Result<
    Seq<FilterView>,
    Seq<char>,
> {
    let mapped = match data_type {
        Some(t) => match data_type_value(lower_of(t)) {
            Some(v) => Some(FilterView::Eq { column: "data_type"@, value: v }),
            None => None,
        },
        None => None,
    };
    vocabulary_part(data_type, mapped, policy, "unrecognized data type: "@)
}

/// The collectors predicate of a search.
pub open spec fn collectors_part(collectors: Option<Seq<char>>) -> Seq<FilterView> {
    match collectors {
        Some(c) => seq![FilterView::In { column: "collector_id"@, values: trimmed_list(c) }],
        None => seq![],
    }
}

/// The instant that an optional time text names: nothing for no text, an error that
/// quotes a text that names no instant.
pub open spec fn text_moment(t: Option<Seq<char>>) -> Result<Option<Moment>, Seq<char>> {
    match t {
        None => Ok(None),
        Some(s) => match moment_of_text(s) {
            Some(m) => Ok(Some(m)),
            None => Err(message_about("cannot parse time string: "@, s)),
        },
    }
}

/// The length of time that an optional duration text names; a text with too many
/// significant digits is refused as too long.
pub open spec fn text_span(t: Option<Seq<char>>) -> Result<Option<Span>, Seq<char>> {
    match t {
        None => Ok(None),
        Some(s) => if !duration_readable(s) {
            Err(message_about("time duration too long: "@, s))
        } else {
            match span_of_text(s) {
                Some(d) => Ok(Some(d)),
                None => Err(message_about("cannot parse time duration string: "@, s)),
            }
        },
    }
}

/// The window, in nanoseconds, that the time texts of a search ask for. The end is read
/// first, then the start; the duration is read only when exactly one of them is given.
pub open spec fn requested_window(
    ts_start: Option<Seq<char>>,
    ts_end: Option<Seq<char>>,
    duration: Option<Seq<char>>,
) -> Result<(Option<int>, Option<int>), Seq<char>> {
    match text_moment(ts_end) {
        Err(m) => Err(m),
        Ok(end) => match text_moment(ts_start) {
            Err(m) => Err(m),
            Ok(start) => if (start is Some) != (end is Some) {
                match text_span(duration) {
                    Err(m) => Err(m),
                    Ok(d) => Ok(resolved_window(start, end, d)),
                }
            } else {
                Ok(resolved_window(start, end, None))
            },
        },
    }
}

/// The text that a bound of the window is compared as.
pub open spec fn bound_text(ns: int) -> Option<Seq<char>> {
    datetime_text_of(moment_at(ns).secs, moment_at(ns).nanos)
}

pub open spec fn bound_writable(b: Option<int>) -> bool {
    b matches Some(x) ==> bound_text(x) is Some
}

/// The time predicates of a search: rows that begin by the window's end and end by its
/// start, so that they overlap the window.
pub open spec fn time_part(
    ts_start: Option<Seq<char>>,
    ts_end: Option<Seq<char>>,
    duration: Option<Seq<char>>,
) -> Result<Seq<FilterView>, Seq<char>> {
    match requested_window(ts_start, ts_end, duration) {
        Err(m) => Err(m),
        Ok(w) => if !window_fits(w) || !bound_writable(w.1) || !bound_writable(w.0) {
            Err("time out of range"@)
        } else {
            let end_part = match w.1 {
                Some(e) => seq![FilterView::Lte { column: "ts_start"@, value: bound_text(e).unwrap() }],
                None => seq![],
            };
            let start_part = match w.0 {
                Some(s) => seq![FilterView::Gte { column: "ts_end"@, value: bound_text(s).unwrap() }],
                None => seq![],
            };
            Ok(end_part + start_part)
        },
    }
}

/// Reads an optional time text.
fn read_moment(t: &Option<String>) -> (r: Result<Option<Moment>, ApiError>)
    ensures
        match text_moment(opt_view(*t)) {
            Ok(m) => r == Ok::<Option<Moment>, ApiError>(m),
            Err(msg) => r matches Err(e) && e.status_code == BAD_REQUEST && e.messages() == seq![msg],
        },
        r matches Ok(Some(m)) ==> m.wf(),
{
    match t {
        None => Ok(None),
        Some(s) => match parse_moment(s.as_str()) {
            Ok(m) => Ok(Some(m)),
            Err(e) => Err(e),
        },
    }
}

/// Reads an optional duration text.
fn read_span(t: &Option<String>) -> (r: Result<Option<Span>, ApiError>)
    ensures
        match text_span(opt_view(*t)) {
            Ok(d) => r == Ok::<Option<Span>, ApiError>(d),
            Err(msg) => r matches Err(e) && e.status_code == BAD_REQUEST && e.messages() == seq![msg],
        },
        r matches Ok(Some(d)) ==> d.wf(),
{
    match t {
        None => Ok(None),
        Some(s) => match parse_span(s.as_str()) {
            Ok(d) => Ok(Some(d)),
            Err(e) => Err(e),
        },
    }
}

/// Writes a bound of the window.
fn bound_string(m: Moment) -> (r: Option<String>)
    requires
        m.wf(),
    ensures
        match r {
            Some(t) => bound_text(m.ns()) == Some(t@),
            None => bound_text(m.ns()) is None,
        },
{
    proof {
        moment_at_ns(m);
    }
    format_datetime(m.secs, m.nanos)
}

/// The time predicates of a search, or a bad request when a text does not read or a bound
/// is out of range.
pub fn time_filters(
    ts_start: &Option<String>,
    ts_end: &Option<String>,
    duration: &Option<String>,
) -> (r: Result<Vec<Filter>, ApiError>)
    ensures
        match time_part(opt_view(*ts_start), opt_view(*ts_end), opt_view(*duration)) {
            Ok(fs) => r matches Ok(v) && filter_views(v@) == fs,
            Err(msg) => r matches Err(e) && e.status_code == BAD_REQUEST && e.messages() == seq![msg],
        },
{
    let end = match read_moment(ts_end) {
        Ok(m) => m,
        Err(e) => return Err(e),
    };
    let start = match read_moment(ts_start) {
        Ok(m) => m,
        Err(e) => return Err(e),
    };
    let d = if start.is_some() != end.is_some() {
        match read_span(duration) {
            Ok(d) => d,
            Err(e) => return Err(e),
        }
    } else {
        None
    };
    let w = match resolve_window(start, end, d) {
        Ok(w) => w,
        Err(e) => return Err(e),
    };
    let mut filters: Vec<Filter> = Vec::new();
    if let Some(e) = w.end {
        match bound_string(e) {
            Some(t) => add_filter(&mut filters, Filter::Lte { column: String::from_str("ts_start"), value: t }),
            None => return Err(ApiError::new_bad_request("time out of range")),
        }
    }
    if let Some(s) = w.start {
        match bound_string(s) {
            Some(t) => add_filter(&mut filters, Filter::Gte { column: String::from_str("ts_end"), value: t }),
            None => return Err(ApiError::new_bad_request("time out of range")),
        }
    }
    assert(filter_views(filters@) =~= time_part(opt_view(*ts_start), opt_view(*ts_end), opt_view(*duration))->Ok_0);
    Ok(filters)
}

/// All predicates of a search, in order: time, project, collectors, data type. The first
/// field that fails decides the error.
pub open spec fn broker_filters(q: BrokerSearchQuery, policy: Vocabulary) -> Result<Seq<FilterView>, Seq<char>> {
    match time_part(opt_view(q.ts_start), opt_view(q.ts_end), opt_view(q.duration)) {
        Err(m) => Err(m),
        Ok(t) => match project_part(opt_view(q.project), policy) {
            Err(m) => Err(m),
            Ok(p) => match data_type_part(opt_view(q.data_type), policy) {
                Err(m) => Err(m),
                Ok(d) => Ok(t + p + collectors_part(opt_view(q.collectors)) + d),
            },
        },
    }
}

/// The project predicate of a search.
fn project_filters(project: &Option<String>, policy: Vocabulary) -> (r: Result<Vec<Filter>, ApiError>)
    ensures
        match project_part(opt_view(*project), policy) {
            Ok(fs) => r matches Ok(v) && filter_views(v@) == fs,
            Err(msg) => r matches Err(e) && e.status_code == BAD_REQUEST && e.messages() == seq![msg],
        },
{
    let mut filters: Vec<Filter> = Vec::new();
    if let Some(p) = project {
        match project_collector_pattern(p.as_str()) {
            Some(pat) => add_filter(
                &mut filters,
                Filter::ILike { column: String::from_str("collector_id"), pattern: String::from_str(pat) },
            ),
            None => if policy == Vocabulary::Strict {
                return Err(bad_request_about("unrecognized project: ", p.as_str()));
            },
        }
    }
    assert(filter_views(filters@) =~= project_part(opt_view(*project), policy)->Ok_0);
    Ok(filters)
}

/// The data-type predicate of a search.
fn data_type_filters(data_type: &Option<String>, policy: Vocabulary) -> (r: Result<Vec<Filter>, ApiError>)
    ensures
        match data_type_part(opt_view(*data_type), policy) {
            Ok(fs) => r matches Ok(v) && filter_views(v@) == fs,
            Err(msg) => r matches Err(e) && e.status_code == BAD_REQUEST && e.messages() == seq![msg],
        },
{
    let mut filters: Vec<Filter> = Vec::new();
    if let Some(t) = data_type {
        let lowered = lowercase(t.as_str());
        match data_type_name(lowered.as_str()) {
            Some(v) => add_filter(
                &mut filters,
                Filter::Eq { column: String::from_str("data_type"), value: String::from_str(v) },
            ),
            None => if policy == Vocabulary::Strict {
                return Err(bad_request_about("unrecognized data type: ", t.as_str()));
            },
        }
    }
    assert(filter_views(filters@) =~= data_type_part(opt_view(*data_type), policy)->Ok_0);
    Ok(filters)
}

/// The store query of a search for data files: the predicates of `broker_filters`, rows
/// sorted by start time, and the requested page of at most `MAX_PAGE_SIZE` rows.
pub fn broker_query(q: &BrokerSearchQuery, pagination: &Pagination, policy: Vocabulary) -> (r:
    Result<StoreQuery, ApiError>)
    ensures
        match broker_filters(*q, policy) {
            Err(msg) => r matches Err(e) && e.status_code == BAD_REQUEST && e.messages() == seq![msg],
            Ok(fs) => {
                let (p, s) = normalized_page(pagination.page, pagination.page_size, 10, MAX_PAGE_SIZE);
                match window_of(p, s) {
                    None => r matches Err(e) && e.status_code == BAD_REQUEST,
                    Some(w) => r matches Ok(sq) && sq.relation@ == "items"@ && filter_views(sq.filters@)
                        == fs && opt_view(sq.order) == Some("ts_start.asc"@) && sq.page == p
                        && sq.page_size == s && sq.rows == store_range_of(w),
                }
            },
        },
{
    let mut filters = match time_filters(&q.ts_start, &q.ts_end, &q.duration) {
        Ok(f) => f,
        Err(e) => return Err(e),
    };
    let project = match project_filters(&q.project, policy) {
        Ok(f) => f,
        Err(e) => return Err(e),
    };
    let data_type = match data_type_filters(&q.data_type, policy) {
        Ok(f) => f,
        Err(e) => return Err(e),
    };
    let ghost fs = broker_filters(*q, policy)->Ok_0;
    let ghost t = filter_views(filters@);
    add_filters(&mut filters, project);
    if let Some(c) = &q.collectors {
        add_filter(
            &mut filters,
            Filter::In { column: String::from_str("collector_id"), values: trimmed_entries(c.as_str()) },
        );
    }
    add_filters(&mut filters, data_type);
    assert(filter_views(filters@) =~= fs);
    let (page, page_size) = pagination.extract(MAX_PAGE_SIZE);
    let rows = match page_rows(page, page_size) {
        Ok(rows) => rows,
        Err(e) => return Err(e),
    };
    Ok(
        StoreQuery {
            relation: String::from_str("items"),
            filters,
            order: Some(String::from_str("ts_start.asc")),
            page,
            page_size,
            rows,
        },
    )
}

} // verus!

verus! {

/// Under the lenient policy a project or data type outside the vocabulary adds no
/// predicate and no error; under the strict one it is an error that quotes it.
pub proof fn unknown_vocabulary(project: Seq<char>, data_type: Seq<char>)
    requires
        project_pattern(project) is None,
        data_type_value(lower_of(data_type)) is None,
    ensures
        project_part(Some(project), Vocabulary::Lenient) == Ok::<Seq<FilterView>, Seq<char>>(
            seq![],
        ),
        data_type_part(Some(data_type), Vocabulary::Lenient) == Ok::<Seq<FilterView>, Seq<char>>(
            seq![],
        ),
        project_part(Some(project), Vocabulary::Strict) == Err::<Seq<FilterView>, Seq<char>>(
            message_about("unrecognized project: "@, project),
        ),
        data_type_part(Some(data_type), Vocabulary::Strict) == Err::<Seq<FilterView>, Seq<char>>(
            message_about("unrecognized data type: "@, data_type),
        ),
{
}

/// A search that gives no time, project, collectors or data type gets no predicate.
pub proof fn unconstrained_search(q: BrokerSearchQuery, policy: Vocabulary)
    requires
        q.ts_start is None,
        q.ts_end is None,
        q.project is None,
        q.collectors is None,
        q.data_type is None,
    ensures
        broker_filters(q, policy) == Ok::<Seq<FilterView>, Seq<char>>(seq![]),
{
    assert(broker_filters(q, policy)->Ok_0 =~= seq![]);
}

} // verus!
