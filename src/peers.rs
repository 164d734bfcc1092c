//! Statistics on the peers of route collectors: the query a search turns into, and the
//! records it returns.
use crate::calendar::{date_days_of, date_text_of, format_date_days, parse_date_days};
use crate::error::{ApiError, BAD_REQUEST};
use crate::pagination::{normalized_page, page_rows, store_range_of, window_of, Pagination, MAX_PAGE_SIZE};
use crate::query::{add_filter, filter_views, opt_view, Filter, FilterView, StoreQuery};
use crate::text::{decimal, decimal_text};
use crate::timewindow::{bad_request_about, message_about};
use vstd::prelude::*;

verus! {

/// Page size of the latest snapshot, which is returned whole.
pub const SNAPSHOT_PAGE_SIZE: usize = 10000;

/// What one collector peer received on one day.
#[derive(Debug)]
pub struct PeerStats {
    /// Day of the statistics.
    pub date: String,
    /// Route collector ID.
    pub collector: String,
    /// IP address of the peer.
    pub ip: String,
    /// AS number of the peer.
    pub asn: i64,
    /// Number of distinct IPv4 prefixes the peer sends.
    pub num_v4_pfxs: i64,
    /// Number of distinct IPv6 prefixes the peer sends.
    pub num_v6_pfxs: i64,
    /// Number of ASes connected to the peer.
    pub num_connected_asns: i64,
}

/// A page of peer statistics.
#[derive(Debug)]
pub struct PeerStatsResponse {
    pub page: usize,
    pub page_size: usize,
    /// The number of records on this page.
    pub count: usize,
    pub data: Vec<PeerStats>,
}

impl PeerStatsResponse {
    /// Wraps the records of one page, counting them.
    pub fn new(page: usize, page_size: usize, data: Vec<PeerStats>) -> (r: PeerStatsResponse)
        ensures
            r.page == page,
            r.page_size == page_size,
            r.count == data@.len(),
            r.data == data,
    {
        let count = data.len();
        PeerStatsResponse { page, page_size, count, data }
    }
}

/// The parameters of a peer search; each is optional.
#[derive(Debug)]
pub struct PeerStatsSearchQuery {
    /// Exact peer IP address.
    pub ip: Option<String>,
    /// Exact peer AS number.
    pub asn: Option<u32>,
    /// Day, `YYYY-MM-DD`; only read when `latest` is false.
    pub date: Option<String>,
    /// Collector ID, such as `rrc00`, ignoring case.
    pub collector: Option<String>,
    /// Least number of IPv4 prefixes.
    pub min_v4: Option<u32>,
    /// Least number of IPv6 prefixes.
    pub min_v6: Option<u32>,
    /// Least number of connected ASes.
    pub min_connected: Option<u32>,
    /// Whether to read the latest snapshot; it is read unless this is false.
    pub latest: Option<bool>,
}

/// Whether a search reads the latest snapshot.
pub open spec fn reads_latest(q: PeerStatsSearchQuery) -> bool {
    q.latest != Some(false)
}

/// The date predicate of a search on history: the day as chrono writes it back, or an
/// error that quotes a text that is no date.
pub open spec fn date_part(q: PeerStatsSearchQuery) -> Result<Seq<FilterView>, Seq<char>> {
    if reads_latest(q) {
        Ok(seq![])
    } else {
        match opt_view(q.date) {
            None => Ok(seq![]),
            Some(d) => match date_days_of(d) {
                Some(n) => match date_text_of(n) {
                    Some(t) => Ok(seq![FilterView::Eq { column: "date"@, value: t }]),
                    None => Err(message_about("cannot parse date string: "@, d)),
                },
                None => Err(message_about("cannot parse date string: "@, d)),
            },
        }
    }
}

pub open spec fn threshold(column: Seq<char>, v: Option<u32>) -> Seq<FilterView> {
    match v {
        Some(n) => seq![FilterView::Gte { column, value: decimal(n as nat) }],
        None => seq![],
    }
}

/// The predicates of a peer search, in order: AS number, collector, IP, date, then the
/// three thresholds.
pub open spec fn peer_filters(q: PeerStatsSearchQuery) -> Result<Seq<FilterView>, Seq<char>> {
    let asn = match q.asn {
        Some(a) => seq![FilterView::Eq { column: "asn"@, value: decimal(a as nat) }],
        None => seq![],
    };
    let collector = match opt_view(q.collector) {
        Some(c) => seq![FilterView::ILike { column: "collector"@, pattern: c }],
        None => seq![],
    };
    let ip = match opt_view(q.ip) {
        Some(i) => seq![FilterView::Eq { column: "ip"@, value: i }],
        None => seq![],
    };
    match date_part(q) {
        Err(m) => Err(m),
        Ok(d) => Ok(asn + collector + ip + d + threshold("num_v4_pfxs"@, q.min_v4) + threshold(
            "num_v6_pfxs"@,
            q.min_v6,
        ) + threshold("num_connected_asns"@, q.min_connected)),
    }
}

/// The page of a peer search: the latest snapshot comes whole, as page 0 of
/// `SNAPSHOT_PAGE_SIZE` rows; history is paged as requested.
pub open spec fn peer_page(q: PeerStatsSearchQuery, pagination: Pagination) -> (usize, usize) {
    if reads_latest(q) {
        (0, SNAPSHOT_PAGE_SIZE)
    } else {
        normalized_page(pagination.page, pagination.page_size, 10, MAX_PAGE_SIZE)
    }
}

fn add_threshold(filters: &mut Vec<Filter>, column: &str, v: Option<u32>)
    ensures
        filter_views(final(filters)@) == filter_views(old(filters)@) + threshold(column@, v),
{
    if let Some(n) = v {
        add_filter(filters, Filter::Gte { column: String::from_str(column), value: decimal_text(n as u64) });
    }
    assert(filter_views(filters@) =~= filter_views(old(filters)@) + threshold(column@, v));
}

/// The store query of a peer search: the latest snapshot unless `latest` is false, the
/// predicates of `peer_filters`, and the page of `peer_page`.
pub fn peers_query(q: &PeerStatsSearchQuery, pagination: &Pagination) -> (r: Result<
    StoreQuery,
    ApiError,
>)
    ensures
        match peer_filters(*q) {
            Err(msg) => r matches Err(e) && e.status_code == BAD_REQUEST && e.messages() == seq![msg],
            Ok(fs) => {
                let (p, s) = peer_page(*q, *pagination);
                match window_of(p, s) {
                    None => r matches Err(e) && e.status_code == BAD_REQUEST,
                    Some(w) => r matches Ok(sq) && sq.relation@ == (if reads_latest(*q) {
                        "peer_stats_latest"@
                    } else {
                        "peer_stats"@
                    }) && filter_views(sq.filters@) == fs && sq.order is None && sq.page == p
                        && sq.page_size == s && sq.rows == store_range_of(w),
                }
            },
        },
{
    let is_latest = match q.latest {
        Some(false) => false,
        _ => true,
    };
    let relation = if is_latest {
        String::from_str("peer_stats_latest")
    } else {
        String::from_str("peer_stats")
    };
    let mut filters: Vec<Filter> = Vec::new();
    if let Some(a) = q.asn {
        add_filter(&mut filters, Filter::Eq { column: String::from_str("asn"), value: decimal_text(a as u64) });
    }
    if let Some(c) = &q.collector {
        add_filter(&mut filters, Filter::ILike { column: String::from_str("collector"), pattern: c.clone() });
    }
    if let Some(i) = &q.ip {
        add_filter(&mut filters, Filter::Eq { column: String::from_str("ip"), value: i.clone() });
    }
    if !is_latest {
        if let Some(d) = &q.date {
            let text = match parse_date_days(d.as_str()) {
                Some(n) => format_date_days(n),
                None => None,
            };
            match text {
                Some(t) => add_filter(&mut filters, Filter::Eq { column: String::from_str("date"), value: t }),
                None => return Err(bad_request_about("cannot parse date string: ", d.as_str())),
            }
        }
    }
    add_threshold(&mut filters, "num_v4_pfxs", q.min_v4);
    add_threshold(&mut filters, "num_v6_pfxs", q.min_v6);
    add_threshold(&mut filters, "num_connected_asns", q.min_connected);
    assert(filter_views(filters@) =~= peer_filters(*q)->Ok_0);
    let (page, page_size) = if is_latest {
        (0, SNAPSHOT_PAGE_SIZE)
    } else {
        pagination.extract(MAX_PAGE_SIZE)
    };
    let rows = match page_rows(page, page_size) {
        Ok(rows) => rows,
        Err(e) => return Err(e),
    };
    Ok(StoreQuery { relation, filters, order: None, page, page_size, rows })
}

} // verus!
