use bgpkit_api::intervals::{
    close_interval, close_range_literal, close_range_literals, format_intervals, is_current,
    merge_gaps, normalize_intervals, parse_range_literal, DayInterval,
};
use bgpkit_api::roas::{RoasRawEntry, RoasResponse};

fn day(date: &str) -> i64 {
    close_range_literal(&format!("[{},{}]", date, date)).unwrap().start
}

fn texts(v: &[&str]) -> Vec<String> {
    v.iter().map(|s| s.to_string()).collect()
}

fn pairs(v: &[(&str, &str)]) -> Vec<Vec<String>> {
    v.iter().map(|(a, b)| vec![a.to_string(), b.to_string()]).collect()
}

#[test]
fn range_literal_is_taken_apart() {
    let r = parse_range_literal("[2022-01-01,2022-01-10)").unwrap();
    assert_eq!(r.start, "2022-01-01");
    assert_eq!(r.end, "2022-01-10");
    assert!(!r.start_exclusive);
    assert!(r.end_exclusive);
    let r = parse_range_literal("(2022-01-01,2022-01-10]").unwrap();
    assert!(r.start_exclusive);
    assert!(!r.end_exclusive);
    assert!(parse_range_literal("[2022-01-01]").is_none());
    assert!(parse_range_literal("").is_none());
}

#[test]
fn exclusive_endpoints_are_closed() {
    let d = close_interval(100, 200, true, true);
    assert_eq!((d.start, d.end), (101, 199));
    let d = close_interval(100, 200, false, false);
    assert_eq!((d.start, d.end), (100, 200));
    let d = close_range_literal("(2022-01-01,2022-01-10]").unwrap();
    assert_eq!(d.start, day("2022-01-02"));
    assert_eq!(d.end, day("2022-01-10"));
    let d = close_range_literal("[2022-01-01,2022-01-10)").unwrap();
    assert_eq!(d.start, day("2022-01-01"));
    assert_eq!(d.end, day("2022-01-09"));
}

#[test]
fn malformed_literal_gives_nothing() {
    assert!(close_range_literal("[2022-13-01,2022-01-10)").is_none());
    assert!(close_range_literal("[not-a-date,2022-01-10)").is_none());
    assert!(close_range_literals(&texts(&["[2022-01-01,2022-01-05]", "[bad,bad]"])).is_none());
}

#[test]
fn one_day_gap_is_bridged() {
    let raw = texts(&["[2022-01-01,2022-01-05]", "[2022-01-07,2022-01-10]"]);
    let today = day("2030-01-01") as i32;
    let n = normalize_intervals(&raw, true, today).unwrap();
    assert_eq!(n.date_ranges, pairs(&[("2022-01-01", "2022-01-10")]));
    assert!(!n.current);
}

#[test]
fn two_day_gap_is_kept() {
    let raw = texts(&["[2022-01-01,2022-01-05]", "[2022-01-08,2022-01-10]"]);
    let today = day("2030-01-01") as i32;
    let n = normalize_intervals(&raw, true, today).unwrap();
    assert_eq!(
        n.date_ranges,
        pairs(&[("2022-01-01", "2022-01-05"), ("2022-01-08", "2022-01-10")])
    );
}

#[test]
fn gaps_stay_without_fixing() {
    let raw = texts(&["[2022-01-01,2022-01-05]", "[2022-01-07,2022-01-10]"]);
    let n = normalize_intervals(&raw, false, 0).unwrap();
    assert_eq!(
        n.date_ranges,
        pairs(&[("2022-01-01", "2022-01-05"), ("2022-01-07", "2022-01-10")])
    );
}

#[test]
fn exclusive_end_then_bridge() {
    // the store writes closed day ranges with an exclusive end
    let raw = texts(&["[2022-01-01,2022-01-06)", "[2022-01-07,2022-01-11)"]);
    let n = normalize_intervals(&raw, true, 0).unwrap();
    assert_eq!(n.date_ranges, pairs(&[("2022-01-01", "2022-01-10")]));
}

#[test]
fn chain_of_gaps_merges_into_one() {
    let v = vec![
        DayInterval { start: 0, end: 5 },
        DayInterval { start: 7, end: 9 },
        DayInterval { start: 11, end: 20 },
        DayInterval { start: 30, end: 31 },
    ];
    let m = merge_gaps(&v);
    let got: Vec<(i64, i64)> = m.iter().map(|d| (d.start, d.end)).collect();
    assert_eq!(got, vec![(0, 20), (30, 31)]);
}

#[test]
fn merging_twice_changes_nothing() {
    let v = vec![
        DayInterval { start: 0, end: 5 },
        DayInterval { start: 7, end: 9 },
        DayInterval { start: 12, end: 20 },
    ];
    let once = merge_gaps(&v);
    let twice = merge_gaps(&once);
    let a: Vec<(i64, i64)> = once.iter().map(|d| (d.start, d.end)).collect();
    let b: Vec<(i64, i64)> = twice.iter().map(|d| (d.start, d.end)).collect();
    assert_eq!(a, vec![(0, 9), (12, 20)]);
    assert_eq!(a, b);
}

#[test]
fn gap_free_set_is_unchanged() {
    let raw = texts(&["[2022-01-01,2022-01-10]", "[2022-02-01,2022-02-10]"]);
    let n = normalize_intervals(&raw, true, 0).unwrap();
    assert_eq!(
        n.date_ranges,
        pairs(&[("2022-01-01", "2022-01-10"), ("2022-02-01", "2022-02-10")])
    );
}

#[test]
fn empty_input_is_empty_and_not_current() {
    let n = normalize_intervals(&Vec::new(), true, day("2022-01-01") as i32).unwrap();
    assert!(n.date_ranges.is_empty());
    assert!(!n.current);
    assert!(merge_gaps(&Vec::new()).is_empty());
}

#[test]
fn current_when_ending_yesterday_or_later() {
    let today = day("2022-01-10");
    let raw = texts(&["[2022-01-01,2022-01-09]"]);
    assert!(normalize_intervals(&raw, true, today as i32).unwrap().current);
    let raw = texts(&["[2022-01-01,2022-01-20]"]);
    assert!(normalize_intervals(&raw, true, today as i32).unwrap().current);
    let raw = texts(&["[2022-01-01,2022-01-08]"]);
    assert!(!normalize_intervals(&raw, true, today as i32).unwrap().current);
    // an exclusive end that falls yesterday leaves the day before yesterday
    let raw = texts(&["[2022-01-01,2022-01-09)"]);
    assert!(!normalize_intervals(&raw, true, today as i32).unwrap().current);
    let v = vec![DayInterval { start: 0, end: 3 }, DayInterval { start: 5, end: 9 }];
    assert!(is_current(&v, 10));
    assert!(!is_current(&v, 11));
}

#[test]
fn intervals_are_written_as_iso_dates() {
    let v = vec![DayInterval { start: day("1999-12-31"), end: day("2000-02-29") }];
    assert_eq!(format_intervals(&v).unwrap(), pairs(&[("1999-12-31", "2000-02-29")]));
    let far = vec![DayInterval { start: i64::MAX, end: i64::MAX }];
    assert!(format_intervals(&far).is_none());
}

#[test]
fn roa_record_is_normalized() {
    let raw = RoasRawEntry {
        asn: 13335,
        max_len: 24,
        prefix: "1.1.1.0/24".to_string(),
        tal: "apnic".to_string(),
        date_ranges: texts(&["[2022-01-01,2022-01-06)", "[2022-01-07,2022-01-11)"]),
    };
    let e = raw.to_roas_entry_on(true, day("2022-01-11") as i32).unwrap();
    assert_eq!(e.asn, 13335);
    assert_eq!(e.max_len, 24);
    assert_eq!(e.prefix, "1.1.1.0/24");
    assert_eq!(e.tal, "apnic");
    assert!(e.current);
    assert_eq!(e.date_ranges, pairs(&[("2022-01-01", "2022-01-10")]));
}

#[test]
fn roa_record_against_the_clock() {
    let raw = RoasRawEntry {
        asn: 1,
        max_len: 24,
        prefix: "10.0.0.0/8".to_string(),
        tal: "arin".to_string(),
        date_ranges: texts(&["[2000-01-01,2000-01-06)"]),
    };
    let e = raw.to_roas_entry(true).unwrap();
    assert!(!e.current);
    assert_eq!(e.date_ranges, pairs(&[("2000-01-01", "2000-01-05")]));
}

#[test]
fn roa_record_without_ranges() {
    for fix_gaps in [true, false] {
        let raw = RoasRawEntry {
            asn: 2,
            max_len: 24,
            prefix: "192.0.2.0/24".to_string(),
            tal: "ripencc".to_string(),
            date_ranges: Vec::new(),
        };
        let e = raw.to_roas_entry(fix_gaps).unwrap();
        assert!(e.date_ranges.is_empty());
        assert!(!e.current);
    }
}

#[test]
fn order_is_kept_without_merging() {
    let raw = texts(&["(2022-03-01,2022-03-05]", "[2022-01-01,2022-01-03)"]);
    let n = normalize_intervals(&raw, false, 0).unwrap();
    assert_eq!(
        n.date_ranges,
        pairs(&[("2022-03-02", "2022-03-05"), ("2022-01-01", "2022-01-02")])
    );
}

#[test]
fn roas_response_from_rows() {
    let row = |ranges: &[&str]| RoasRawEntry {
        asn: 7,
        max_len: 24,
        prefix: "192.0.2.0/24".to_string(),
        tal: "arin".to_string(),
        date_ranges: texts(ranges),
    };
    let today = day("2022-01-11") as i32;
    let r = RoasResponse::from_rows_on(
        3,
        100,
        vec![row(&["[2022-01-01,2022-01-05]", "[2022-01-07,2022-01-10]"]), row(&[])],
        today,
    )
    .unwrap();
    assert_eq!((r.page, r.page_size), (3, 100));
    assert_eq!(r.data.len(), 2);
    assert!(r.data[0].current);
    assert_eq!(r.data[0].date_ranges, pairs(&[("2022-01-01", "2022-01-10")]));
    assert!(r.data[1].date_ranges.is_empty() && !r.data[1].current);
    assert!(RoasResponse::from_rows_on(0, 10, vec![row(&["[bad,2022-01-01]"])], today).is_none());
    assert_eq!(RoasResponse::from_rows(0, 10, vec![row(&["[2000-01-01,2000-01-02]"])]).unwrap().data.len(), 1);
}
