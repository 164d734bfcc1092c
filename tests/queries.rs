use bgpkit_api::asninfo::{asninfo_query, AsnInfo, AsninfoResponse, AsninfoSearchQuery};
use bgpkit_api::broker::{
    broker_query, data_type_name, project_collector_pattern, time_filters,
    BrokerRawEntry, BrokerResponse, BrokerSearchQuery, Vocabulary,
};
use bgpkit_api::pagination::Pagination;
use bgpkit_api::peers::{peers_query, PeerStatsResponse, PeerStatsSearchQuery};
use bgpkit_api::query::Filter;
use bgpkit_api::text::trimmed_entries;
use bgpkit_api::roas::{roas_call, roas_request, RoasSearchQuery};
use bgpkit_api::timewindow::{moment_plus, parse_moment, parse_span, resolve_window, Moment, Span};

fn describe(f: &Filter) -> String {
    match f {
        Filter::Eq { column, value } => format!("{}=eq.{}", column, value),
        Filter::Gte { column, value } => format!("{}=gte.{}", column, value),
        Filter::Lte { column, value } => format!("{}=lte.{}", column, value),
        Filter::ILike { column, pattern } => format!("{}=ilike.{}", column, pattern),
        Filter::In { column, values } => format!("{}=in.({})", column, values.join("|")),
        Filter::Or { expr } => format!("or=({})", expr),
    }
}

fn describe_all(v: &[Filter]) -> Vec<String> {
    v.iter().map(describe).collect()
}

fn no_paging() -> Pagination {
    Pagination { page: None, page_size: None }
}

fn broker(
    ts_start: Option<&str>,
    ts_end: Option<&str>,
    duration: Option<&str>,
    project: Option<&str>,
    collectors: Option<&str>,
    data_type: Option<&str>,
) -> BrokerSearchQuery {
    BrokerSearchQuery {
        ts_start: ts_start.map(String::from),
        ts_end: ts_end.map(String::from),
        duration: duration.map(String::from),
        project: project.map(String::from),
        collectors: collectors.map(String::from),
        data_type: data_type.map(String::from),
    }
}

#[test]
fn moments_are_read_from_unix_seconds_or_iso_text() {
    let m = parse_moment("1640995200").unwrap();
    assert_eq!((m.secs, m.nanos), (1640995200, 0));
    let m = parse_moment("2022-01-01T00:00:00").unwrap();
    assert_eq!((m.secs, m.nanos), (1640995200, 0));
    let m = parse_moment("2022-01-01T00:00:01.5").unwrap();
    assert_eq!((m.secs, m.nanos), (1640995201, 500_000_000));
    let m = parse_moment("-10").unwrap();
    assert_eq!(m.secs, -10);
}

#[test]
fn malformed_time_is_bad_request_quoting_it() {
    let e = parse_moment("not-a-date").unwrap_err();
    assert_eq!(e.status_code, 400);
    assert_eq!(e.errors, vec!["cannot parse time string: not-a-date".to_string()]);
    let e = broker_query(&broker(Some("not-a-date"), None, None, None, None, None), &no_paging(), Vocabulary::Lenient)
        .unwrap_err();
    assert_eq!(e.status_code, 400);
    assert!(e.errors[0].contains("not-a-date"));
}

#[test]
fn durations_are_read() {
    let d = parse_span("2h30m").unwrap();
    assert_eq!((d.secs, d.nanos), (9000, 0));
    let d = parse_span("1day").unwrap();
    assert_eq!(d.secs, 86400);
    let e = parse_span("soon").unwrap_err();
    assert_eq!(e.status_code, 400);
    assert_eq!(e.errors, vec!["cannot parse time duration string: soon".to_string()]);
}

#[test]
fn window_is_resolved_from_one_bound_and_duration() {
    let t = Moment { secs: 1000, nanos: 0 };
    let u = Moment { secs: 5000, nanos: 0 };
    let d = Span { secs: 100, nanos: 0 };
    let w = resolve_window(Some(t), None, Some(d)).unwrap();
    assert_eq!(w.end.unwrap().secs, 1100);
    assert_eq!(w.start.unwrap().secs, 1000);
    let w = resolve_window(None, Some(t), Some(d)).unwrap();
    assert_eq!(w.start.unwrap().secs, 900);
    let w = resolve_window(Some(t), Some(u), Some(d)).unwrap();
    assert_eq!((w.start.unwrap().secs, w.end.unwrap().secs), (1000, 5000));
    let w = resolve_window(None, None, Some(d)).unwrap();
    assert!(w.start.is_none() && w.end.is_none());
}

#[test]
fn moment_arithmetic_carries_nanoseconds() {
    let m = moment_plus(Moment { secs: 1, nanos: 900_000_000 }, Span { secs: 0, nanos: 200_000_000 }).unwrap();
    assert_eq!((m.secs, m.nanos), (2, 100_000_000));
    assert!(moment_plus(Moment { secs: i64::MAX, nanos: 0 }, Span { secs: 1, nanos: 0 }).is_none());
    let e = resolve_window(Some(Moment { secs: i64::MAX, nanos: 0 }), None, Some(Span { secs: 1, nanos: 0 }))
        .unwrap_err();
    assert_eq!(e.status_code, 400);
}

#[test]
fn time_filters_overlap_the_window() {
    let s = Some("2022-01-01T00:00:00".to_string());
    let d = Some("1h".to_string());
    let f = time_filters(&s, &None, &d).unwrap();
    assert_eq!(
        describe_all(&f),
        vec!["ts_start=lte.2022-01-01T01:00:00", "ts_end=gte.2022-01-01T00:00:00"]
    );
    let e = Some("1640995200".to_string());
    let f = time_filters(&None, &e, &d).unwrap();
    assert_eq!(
        describe_all(&f),
        vec!["ts_start=lte.2022-01-01T00:00:00", "ts_end=gte.2021-12-31T23:00:00"]
    );
    // with both bounds the duration is not even read
    let bad = Some("whenever".to_string());
    let f = time_filters(&s, &e, &bad).unwrap();
    assert_eq!(f.len(), 2);
    assert!(time_filters(&s, &None, &bad).is_err());
    assert!(time_filters(&None, &None, &None).unwrap().is_empty());
}

#[test]
fn project_synonyms() {
    for p in ["route-views", "routeviews", "rv"] {
        assert_eq!(project_collector_pattern(p), Some("route-views%"));
    }
    for p in ["ripe", "ripencc", "riperis", "ris"] {
        assert_eq!(project_collector_pattern(p), Some("rrc%"));
    }
    assert_eq!(project_collector_pattern("bogus"), None);
    assert_eq!(data_type_name("updates"), Some("update"));
    assert_eq!(data_type_name("r"), Some("rib"));
    assert_eq!(data_type_name("x"), None);
}

#[test]
fn unknown_project_is_ignored() {
    let q = broker(None, None, None, Some("bogus"), None, None);
    let sq = broker_query(&q, &no_paging(), Vocabulary::Lenient).unwrap();
    assert!(sq.filters.is_empty());
    let e = broker_query(&q, &no_paging(), Vocabulary::Strict).unwrap_err();
    assert_eq!(e.status_code, 400);
    assert_eq!(e.errors, vec!["unrecognized project: bogus".to_string()]);
}

#[test]
fn broker_query_in_full() {
    let q = broker(
        Some("1640995200"),
        None,
        Some("2h"),
        Some("rv"),
        Some("route-views2, rrc00 ,"),
        Some("RIBS"),
    );
    let sq = broker_query(&q, &Pagination { page: Some(2), page_size: Some(5000) }, Vocabulary::Lenient).unwrap();
    assert_eq!(sq.relation, "items");
    assert_eq!(sq.order.as_deref(), Some("ts_start.asc"));
    assert_eq!(
        describe_all(&sq.filters),
        vec![
            "ts_start=lte.2022-01-01T02:00:00",
            "ts_end=gte.2022-01-01T00:00:00",
            "collector_id=ilike.route-views%",
            "collector_id=in.(route-views2|rrc00|)",
            "data_type=eq.rib",
        ]
    );
    assert_eq!((sq.page, sq.page_size), (2, 1000));
    assert_eq!(sq.rows, Some((2000, 2999)));
}

#[test]
fn collector_list_is_trimmed() {
    assert_eq!(trimmed_entries(" rrc00, route-views2 "), vec!["rrc00", "route-views2"]);
}

#[test]
fn broker_entry_project_follows_collector() {
    let raw = BrokerRawEntry {
        ts_start: "a".to_string(),
        ts_end: "b".to_string(),
        collector_id: "rrc01".to_string(),
        data_type: "rib".to_string(),
        url: "u".to_string(),
        rough_size: 10,
        exact_size: 11,
    };
    let e = raw.to_entry();
    assert_eq!(e.project, "riperis");
    assert_eq!(e.collector, "rrc01");
    assert_eq!(e.size, 10);
    let raw = BrokerRawEntry {
        ts_start: "a".to_string(),
        ts_end: "b".to_string(),
        collector_id: "route-views2".to_string(),
        data_type: "update".to_string(),
        url: "u".to_string(),
        rough_size: 1,
        exact_size: 2,
    };
    let e = raw.to_entry();
    assert_eq!(e.project, "route-views");
    let r = BrokerResponse::new(0, 10, vec![e]);
    assert_eq!(r.count, 1);
}

#[test]
fn asninfo_query_in_full() {
    let q = AsninfoSearchQuery {
        asn: Some(13335),
        asns: Some("1,2,3".to_string()),
        name: Some("cloud".to_string()),
        country: Some("US".to_string()),
    };
    let sq = asninfo_query(&q, &no_paging()).unwrap();
    assert_eq!(sq.relation, "asn_view");
    assert!(sq.order.is_none());
    assert_eq!(
        describe_all(&sq.filters),
        vec![
            "asn=eq.13335",
            "asn=in.(1|2|3)",
            "or=(country_code.ilike.\"US\", country_name.ilike.\"*US*\")",
            "or=(as_name.ilike.\"*cloud*\", org_name.ilike.\"*cloud*\")",
        ]
    );
    assert_eq!(sq.rows, Some((0, 9)));
    let empty = AsninfoSearchQuery { asn: None, asns: None, name: None, country: None };
    assert!(asninfo_query(&empty, &no_paging()).unwrap().filters.is_empty());
    let info = AsnInfo {
        asn: 1,
        as_name: None,
        org_id: None,
        org_name: None,
        country_code: None,
        country_name: None,
        data_source: None,
    };
    let r = AsninfoResponse::new(1, 10, vec![info]);
    assert_eq!((r.page, r.page_size, r.count), (1, 10, 1));
}

fn peers(latest: Option<bool>, date: Option<&str>) -> PeerStatsSearchQuery {
    PeerStatsSearchQuery {
        ip: Some("192.0.2.1".to_string()),
        asn: Some(64500),
        date: date.map(String::from),
        collector: Some("rrc00".to_string()),
        min_v4: Some(100),
        min_v6: None,
        min_connected: Some(3),
        latest,
    }
}

#[test]
fn latest_peers_come_as_one_snapshot() {
    let sq = peers_query(&peers(None, Some("2022-01-01")), &Pagination { page: Some(4), page_size: Some(5) }).unwrap();
    assert_eq!(sq.relation, "peer_stats_latest");
    assert_eq!((sq.page, sq.page_size), (0, 10000));
    assert_eq!(sq.rows, Some((0, 9999)));
    assert_eq!(
        describe_all(&sq.filters),
        vec![
            "asn=eq.64500",
            "collector=ilike.rrc00",
            "ip=eq.192.0.2.1",
            "num_v4_pfxs=gte.100",
            "num_connected_asns=gte.3",
        ]
    );
}

#[test]
fn peer_history_is_paged_and_dated() {
    let sq = peers_query(&peers(Some(false), Some("2022-1-5")), &Pagination { page: Some(4), page_size: Some(5) }).unwrap();
    assert_eq!(sq.relation, "peer_stats");
    assert_eq!((sq.page, sq.page_size), (4, 5));
    assert_eq!(sq.rows, Some((20, 24)));
    assert!(describe_all(&sq.filters).contains(&"date=eq.2022-01-05".to_string()));
    let e = peers_query(&peers(Some(false), Some("yesterday")), &no_paging()).unwrap_err();
    assert_eq!(e.status_code, 400);
    assert_eq!(e.errors, vec!["cannot parse date string: yesterday".to_string()]);
    let r = PeerStatsResponse::new(0, 10, Vec::new());
    assert_eq!(r.count, 0);
}

#[test]
fn roas_call_arguments() {
    let q = RoasSearchQuery {
        asn: Some(13335),
        prefix: Some("1.1.1.0/24".to_string()),
        tal: None,
        date: None,
        current: Some(true),
        max_len: None,
    };
    let c = roas_call(&q, Some(2), None, "2022-01-09").unwrap();
    assert_eq!(c.function, "query_history");
    assert_eq!((c.page, c.page_size), (2, 100));
    assert_eq!(
        c.arguments,
        "{ \"res_limit\": 100,\"res_offset\": 200,\"prefix\": \"1.1.1.0/24\",\"asn\": 13335,\"max_len\": -1,\"nic\": \"\",\"date\": \"2022-01-09\",\"not_date\": \"\" }"
    );
    let q = RoasSearchQuery {
        asn: None,
        prefix: None,
        tal: Some("arin".to_string()),
        date: Some("2021-05-05".to_string()),
        current: None,
        max_len: Some(24),
    };
    let c = roas_call(&q, None, Some(5000), "2022-01-09").unwrap();
    assert_eq!(
        c.arguments,
        "{ \"res_limit\": 1000,\"res_offset\": 0,\"prefix\": \"\",\"asn\": -1,\"max_len\": 24,\"nic\": \"arin\",\"date\": \"2021-05-05\",\"not_date\": \"\" }"
    );
    let q = RoasSearchQuery { asn: None, prefix: None, tal: None, date: None, current: Some(false), max_len: None };
    let c = roas_call(&q, None, None, "2022-01-09").unwrap();
    assert!(c.arguments.ends_with("\"not_date\": \"2022-01-09\",\"date\": \"\" }"));
    let c = roas_request(&q, None, None).unwrap();
    assert_eq!(c.function, "query_history");
}

#[test]
fn asn_list_entries_are_trimmed() {
    let q = AsninfoSearchQuery { asn: None, asns: Some("1, 2 ,3".to_string()), name: None, country: None };
    let sq = asninfo_query(&q, &no_paging()).unwrap();
    assert_eq!(describe_all(&sq.filters), vec!["asn=in.(1|2|3)"]);
}

#[test]
fn overlong_duration_is_bad_request() {
    let e = parse_span("18446744073709551615s 1000ms").unwrap_err();
    assert_eq!(e.status_code, 400);
    assert_eq!(
        e.errors,
        vec!["time duration too long: 18446744073709551615s 1000ms".to_string()]
    );
    let q = broker(Some("1640995200"), None, Some("18446744073709551615s 1000ms"), None, None, None);
    assert_eq!(broker_query(&q, &no_paging(), Vocabulary::Lenient).unwrap_err().status_code, 400);
    let d = parse_span("99999999999ns").unwrap();
    assert_eq!((d.secs, d.nanos), (99, 999_999_999));
    let d = parse_span("000000000001h").unwrap();
    assert_eq!((d.secs, d.nanos), (3600, 0));
    let d = parse_span("0000000 1h 00000000000000030m").unwrap();
    assert_eq!(d.secs, 5400);
    let e = parse_span("1 000 000 000 000s").unwrap_err();
    assert_eq!(e.errors, vec!["time duration too long: 1 000 000 000 000s".to_string()]);
}

#[test]
fn quoted_values_are_escaped() {
    let q = RoasSearchQuery {
        asn: None,
        prefix: Some("a\"b\\c\n".to_string()),
        tal: None,
        date: None,
        current: None,
        max_len: None,
    };
    let c = roas_call(&q, None, None, "2022-01-09").unwrap();
    assert!(c.arguments.contains("\"prefix\": \"a\\\"b\\\\c\\u000a\""));
    let q = AsninfoSearchQuery { asn: None, asns: None, name: Some("x\",y".to_string()), country: None };
    let sq = asninfo_query(&q, &no_paging()).unwrap();
    assert_eq!(
        describe_all(&sq.filters),
        vec!["or=(as_name.ilike.\"*x\\\",y*\", org_name.ilike.\"*x\\\",y*\")"]
    );
}

#[test]
fn broker_response_from_rows() {
    let row = |c: &str| BrokerRawEntry {
        ts_start: "s".to_string(),
        ts_end: "e".to_string(),
        collector_id: c.to_string(),
        data_type: "rib".to_string(),
        url: "u".to_string(),
        rough_size: 5,
        exact_size: 6,
    };
    let r = BrokerResponse::from_rows(1, 2, vec![row("rrc00"), row("route-views2")]);
    assert_eq!((r.page, r.page_size, r.count), (1, 2, 2));
    assert_eq!(r.data[0].project, "riperis");
    assert_eq!(r.data[1].project, "route-views");
    assert_eq!(r.data[1].collector, "route-views2");
    assert_eq!(BrokerResponse::from_rows(0, 10, Vec::new()).count, 0);
}
