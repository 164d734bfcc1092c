use bgpkit_api::error::{ApiError, BAD_REQUEST, INTERNAL_SERVER_ERROR};
use bgpkit_api::pagination::{normalize_page, page_rows, page_window, Pagination};

#[test]
fn error_constructors() {
    let e = ApiError::new(404, "missing");
    assert_eq!(e.status_code, 404);
    assert_eq!(e.errors, vec!["missing".to_string()]);
    let e = ApiError::new_internal("database request failed");
    assert_eq!(e.status_code, 500);
    assert_eq!(e.status_code, INTERNAL_SERVER_ERROR);
    let mut e = ApiError::new_bad_request("first");
    assert_eq!(e.status_code(), BAD_REQUEST);
    e.append_error("second");
    assert_eq!(e.status_code, 400);
    assert_eq!(e.errors, vec!["first".to_string(), "second".to_string()]);
}

#[test]
fn pagination_defaults_and_clamp() {
    let p = Pagination { page: None, page_size: None };
    assert_eq!(p.extract(1000), (0, 10));
    let p = Pagination { page: Some(3), page_size: Some(5000) };
    assert_eq!(p.extract(1000), (3, 1000));
    let p = Pagination { page: Some(2), page_size: Some(50) };
    assert_eq!(p.extract(1000), (2, 50));
    assert_eq!(normalize_page(None, None, 100, 1000), (0, 100));
    assert_eq!(normalize_page(Some(1), Some(1001), 100, 1000), (1, 1000));
}

#[test]
fn page_rows_are_inclusive() {
    assert_eq!(page_rows(0, 10).unwrap(), Some((0, 9)));
    assert_eq!(page_rows(3, 100).unwrap(), Some((300, 399)));
    let w = page_window(7, 20).unwrap();
    assert_eq!((w.offset, w.limit), (140, 20));
}

#[test]
fn empty_page_has_no_rows() {
    assert_eq!(page_rows(5, 0).unwrap(), None);
    assert_eq!(page_rows(usize::MAX, 0).unwrap(), None);
}

#[test]
fn page_out_of_range_is_bad_request() {
    let e = page_rows(usize::MAX, 2).unwrap_err();
    assert_eq!(e.status_code, 400);
    assert!(page_window(usize::MAX / 2, 3).is_none());
    assert_eq!(page_rows(usize::MAX, 1).unwrap(), Some((usize::MAX, usize::MAX)));
}

#[test]
fn default_page_size_is_clamped_too() {
    let p = Pagination { page: None, page_size: None };
    assert_eq!(p.extract(5), (0, 5));
    assert_eq!(normalize_page(Some(2), None, 100, 50), (2, 50));
}
