//! Store queries as plain values: a relation, predicates over its columns, an order and a
//! range of rows.
use crate::text::views;
use vstd::prelude::*;

verus! {

/// One predicate of a store query.
#[derive(Debug)]
pub enum Filter {
    /// The column equals the value.
    Eq { column: String, value: String },
    /// The column is at least the value.
    Gte { column: String, value: String },
    /// The column is at most the value.
    Lte { column: String, value: String },
    /// The column matches the pattern, ignoring case; `%` and `*` match any text.
    ILike { column: String, pattern: String },
    /// The column equals one of the values.
    In { column: String, values: Vec<String> },
    /// At least one of the comma-separated conditions of the expression holds.
    Or { expr: String },
}

/// A predicate with its texts as character sequences.
pub enum FilterView {
    Eq { column: Seq<char>, value: Seq<char> },
    Gte { column: Seq<char>, value: Seq<char> },
    Lte { column: Seq<char>, value: Seq<char> },
    ILike { column: Seq<char>, pattern: Seq<char> },
    In { column: Seq<char>, values: Seq<Seq<char>> },
    Or { expr: Seq<char> },
}

impl View for Filter {
    type V = FilterView;

    open spec fn view(&self) -> FilterView {
        match self {
            Filter::Eq { column, value } => FilterView::Eq { column: column@, value: value@ },
            Filter::Gte { column, value } => FilterView::Gte { column: column@, value: value@ },
            Filter::Lte { column, value } => FilterView::Lte { column: column@, value: value@ },
            Filter::ILike { column, pattern } => FilterView::ILike {
                column: column@,
                pattern: pattern@,
            },
            Filter::In { column, values } => FilterView::In {
                column: column@,
                values: views(values@),
            },
            Filter::Or { expr } => FilterView::Or { expr: expr@ },
        }
    }
}

/// The views of a list of predicates.
pub open spec fn filter_views(v: Seq<Filter>) -> Seq<FilterView> {
    v.map_values(|f: Filter| f@)
}

/// Appends a predicate to a list.
pub fn add_filter(filters: &mut Vec<Filter>, f: Filter)
    ensures
        filter_views(final(filters)@) == filter_views(old(filters)@).push(f@),
{
    filters.push(f);
    assert(filter_views(filters@) =~= filter_views(old(filters)@).push(f@));
}

/// Appends all predicates of `more` to a list.
pub fn add_filters(filters: &mut Vec<Filter>, more: Vec<Filter>)
    ensures
        filter_views(final(filters)@) == filter_views(old(filters)@) + filter_views(more@),
{
    let mut more = more;
    let ghost m = more@;
    filters.append(&mut more);
    assert(filter_views(filters@) =~= filter_views(old(filters)@) + filter_views(m));
}

/// A query against one relation of the store.
#[derive(Debug)]
pub struct StoreQuery {
    /// The table or view that is read.
    pub relation: String,
    /// Predicates that every returned row meets.
    pub filters: Vec<Filter>,
    /// A sort directive such as `ts_start.asc`, if the rows are ordered.
    pub order: Option<String>,
    /// The page number that the rows belong to.
    pub page: usize,
    /// The page size.
    pub page_size: usize,
    /// The first and last row, both included; nothing when the page is empty and the store
    /// need not be asked.
    pub rows: Option<(usize, usize)>,
}

/// The view of an optional text.
pub open spec fn opt_view(o: Option<String>) -> Option<Seq<char>> {
    match o {
        Some(s) => Some(s@),
        None => None,
    }
}

} // verus!
