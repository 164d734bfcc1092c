//! Registry information on autonomous systems: the query a search turns into, and the
//! records it returns.
use crate::error::{ApiError, BAD_REQUEST};
use crate::pagination::{normalized_page, page_rows, store_range_of, window_of, Pagination, MAX_PAGE_SIZE};
use crate::query::{add_filter, filter_views, opt_view, Filter, FilterView, StoreQuery};
use crate::text::{decimal, decimal_text, escape_text, escaped, trimmed_entries, trimmed_list};
use vstd::prelude::*;

verus! {

/// Registry information on one autonomous system.
#[derive(Debug)]
pub struct AsnInfo {
    /// Autonomous system number.
    pub asn: u32,
    /// Name of the autonomous system.
    pub as_name: Option<String>,
    /// Organization ID from CAIDA's as2org dataset.
    pub org_id: Option<String>,
    /// Organization name from CAIDA's as2org dataset.
    pub org_name: Option<String>,
    /// Two-letter country code of the registration.
    pub country_code: Option<String>,
    /// Full country name of the registration.
    pub country_name: Option<String>,
    /// Regional registry that the record comes from.
    pub data_source: Option<String>,
}

/// A page of autonomous-system records.
#[derive(Debug)]
pub struct AsninfoResponse {
    pub page: usize,
    pub page_size: usize,
    /// The number of records on this page.
    pub count: usize,
    pub data: Vec<AsnInfo>,
}

impl AsninfoResponse {
    /// Wraps the records of one page, counting them.
    pub fn new(page: usize, page_size: usize, data: Vec<AsnInfo>) -> (r: AsninfoResponse)
        ensures
            r.page == page,
            r.page_size == page_size,
            r.count == data@.len(),
            r.data == data,
    {
        let count = data.len();
        AsninfoResponse { page, page_size, count, data }
    }
}

/// The parameters of an autonomous-system search; each is optional.
#[derive(Debug)]
pub struct AsninfoSearchQuery {
    /// Exact autonomous system number.
    pub asn: Option<u32>,
    /// Comma-separated autonomous system numbers; blanks around each are ignored.
    pub asns: Option<String>,
    /// Text in the AS name or the organization name.
    pub name: Option<String>,
    /// Country code, or text in the country name.
    pub country: Option<String>,
}

/// The condition that a country parameter makes: the code equals it, ignoring case, or the
/// name contains it. The parameter is escaped inside the quotes.
pub open spec fn country_condition(c: Seq<char>) -> Seq<char> {
    "country_code.ilike.\""@ + escaped(c, false) + "\", country_name.ilike.\"*"@ + escaped(c, false) + "*\""@
}

/// The condition that a name parameter makes: the AS name or the organization name
/// contains it, ignoring case. The parameter is escaped inside the quotes.
pub open spec fn name_condition(n: Seq<char>) -> Seq<char> {
    "as_name.ilike.\"*"@ + escaped(n, false) + "*\", org_name.ilike.\"*"@ + escaped(n, false) + "*\""@
}

/// The predicates of an autonomous-system search, in order: number, list of numbers,
/// country, name.
pub open spec fn asninfo_filters(q: AsninfoSearchQuery) -> Seq<FilterView> {
    let asn = match q.asn {
        Some(a) => seq![FilterView::Eq { column: "asn"@, value: decimal(a as nat) }],
        None => seq![],
    };
    let asns = match opt_view(q.asns) {
        Some(l) => seq![FilterView::In { column: "asn"@, values: trimmed_list(l) }],
        None => seq![],
    };
    let country = match opt_view(q.country) {
        Some(c) => seq![FilterView::Or { expr: country_condition(c) }],
        None => seq![],
    };
    let name = match opt_view(q.name) {
        Some(n) => seq![FilterView::Or { expr: name_condition(n) }],
        None => seq![],
    };
    asn + asns + country + name
}

/// The five texts one after another.
fn concat5(a: &str, b: &str, c: &str, d: &str, e: &str) -> (r: String)
    ensures
        r@ == a@ + b@ + c@ + d@ + e@,
{
    let mut s = String::from_str(a);
    s.append(b);
    s.append(c);
    s.append(d);
    s.append(e);
    s
}

/// The store query of an autonomous-system search: the predicates of `asninfo_filters` and
/// the requested page of at most `MAX_PAGE_SIZE` rows.
pub fn asninfo_query(q: &AsninfoSearchQuery, pagination: &Pagination) -> (r: Result<
    StoreQuery,
    ApiError,
>)
    ensures
        ({
            let (p, s) = normalized_page(pagination.page, pagination.page_size, 10, MAX_PAGE_SIZE);
            match window_of(p, s) {
                None => r matches Err(e) && e.status_code == BAD_REQUEST,
                Some(w) => r matches Ok(sq) && sq.relation@ == "asn_view"@ && filter_views(
                    sq.filters@,
                ) == asninfo_filters(*q) && sq.order is None && sq.page == p && sq.page_size == s
                    && sq.rows == store_range_of(w),
            }
        }),
{
    let mut filters: Vec<Filter> = Vec::new();
    if let Some(a) = q.asn {
        add_filter(
            &mut filters,
            Filter::Eq { column: String::from_str("asn"), value: decimal_text(a as u64) },
        );
    }
    if let Some(l) = &q.asns {
        add_filter(
            &mut filters,
            Filter::In { column: String::from_str("asn"), values: trimmed_entries(l.as_str()) },
        );
    }
    if let Some(c) = &q.country {
        let c = escape_text(c.as_str(), false);
        let expr = concat5("country_code.ilike.\"", c.as_str(), "\", country_name.ilike.\"*", c.as_str(), "*\"");
        add_filter(&mut filters, Filter::Or { expr });
    }
    if let Some(n) = &q.name {
        let n = escape_text(n.as_str(), false);
        let expr = concat5("as_name.ilike.\"*", n.as_str(), "*\", org_name.ilike.\"*", n.as_str(), "*\"");
        add_filter(&mut filters, Filter::Or { expr });
    }
    assert(filter_views(filters@) =~= asninfo_filters(*q));
    let (page, page_size) = pagination.extract(MAX_PAGE_SIZE);
    let rows = match page_rows(page, page_size) {
        Ok(rows) => rows,
        Err(e) => return Err(e),
    };
    Ok(StoreQuery { relation: String::from_str("asn_view"), filters, order: None, page, page_size, rows })
}

} // verus!
