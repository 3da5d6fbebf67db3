use video_stream_be::metrics::{
    first_forwarded, is_unknown_country, needs_country, normalize_geo_field, normalize_ip,
    top_statuses, GeoLookupResult, StatusRow,
};

fn row(route: &str, method: &str, status: &str, count: i64) -> StatusRow {
    StatusRow {
        route: route.to_string(),
        method: method.to_string(),
        status: status.to_string(),
        sample_count: count,
    }
}

fn geo(value: &str) -> Option<String> {
    normalize_geo_field(value.to_string())
}

#[test]
fn geo_fields_lose_whitespace_and_quotes() {
    assert_eq!(geo("  \"Germany\"  "), Some("Germany".to_string()));
    assert_eq!(geo("Berlin"), Some("Berlin".to_string()));
    assert_eq!(geo("\"\" New York \"\""), Some("New York".to_string()));
    assert_eq!(geo("\" 52.5 \""), Some("52.5".to_string()));
    assert_eq!(geo("a\"b"), Some("a\"b".to_string()));
    assert_eq!(geo("\" \"x\" \""), Some("\"x\"".to_string()));
}

#[test]
fn empty_and_null_geo_fields_say_nothing() {
    for value in ["", "   ", "\"\"", " \" \" ", "null", "NULL", " \"Null\" ", "\"nUlL\""] {
        assert_eq!(geo(value), None, "{:?}", value);
    }
    assert_eq!(geo("nulls"), Some("nulls".to_string()));
    assert_eq!(geo("unknown"), Some("unknown".to_string()));
}

#[test]
fn unknown_countries_are_recognized() {
    for value in ["", "  ", "unknown", "Unknown", " UNKNOWN ", "null", " Null\t"] {
        assert!(is_unknown_country(value), "{:?}", value);
    }
    for value in ["DE", "unknown country", "nul", "\"unknown\"", "n/a"] {
        assert!(!is_unknown_country(value), "{:?}", value);
    }
    assert!(needs_country(&None));
    assert!(needs_country(&Some("unknown".to_string())));
    assert!(!needs_country(&Some("France".to_string())));
}

#[test]
fn lookup_result_normalizes_each_field() {
    let result = GeoLookupResult::from_fields(
        "\"DE\"".to_string(),
        "null".to_string(),
        " Berlin ".to_string(),
        "52.52".to_string(),
        "".to_string(),
        "\"Europe/Berlin\"".to_string(),
    );
    assert_eq!(result.country.as_deref(), Some("DE"));
    assert_eq!(result.region, None);
    assert_eq!(result.city.as_deref(), Some("Berlin"));
    assert_eq!(result.latitude.as_deref(), Some("52.52"));
    assert_eq!(result.longitude, None);
    assert_eq!(result.timezone.as_deref(), Some("Europe/Berlin"));
}

#[test]
fn address_candidates_are_the_whole_and_the_bracketed_text() {
    assert!(normalize_ip("").is_none());
    assert!(normalize_ip(" \t ").is_none());
    let plain = normalize_ip(" 10.0.0.1:8080 ").unwrap();
    assert_eq!(plain.whole, "10.0.0.1:8080");
    assert_eq!(plain.bracketed, None);
    let v6 = normalize_ip("[::1]:443").unwrap();
    assert_eq!(v6.whole, "[::1]:443");
    assert_eq!(v6.bracketed.as_deref(), Some("::1"));
    let open = normalize_ip("[fe80::1").unwrap();
    assert_eq!(open.bracketed.as_deref(), Some("fe80::1"));
    let empty = normalize_ip("[]").unwrap();
    assert_eq!(empty.bracketed.as_deref(), Some(""));
    assert_eq!(first_forwarded("203.0.113.7, 10.0.0.1"), "203.0.113.7");
    assert_eq!(first_forwarded("203.0.113.7"), "203.0.113.7");
    assert_eq!(first_forwarded(",x"), "");
}

#[test]
fn top_statuses_are_the_three_most_frequent() {
    let rows = vec![
        row("/videos", "GET", "200", 50),
        row("/videos", "POST", "202", 7),
        row("/videos", "GET", "404", 9),
        row("/videos", "GET", "500", 70),
        row("/other", "GET", "200", 1000),
        row("/videos", "GET", "401", 12),
    ];
    let top = top_statuses(&rows, "/videos", "GET");
    let pairs: Vec<(&str, i64)> = top.iter().map(|s| (s.status.as_str(), s.sample_count)).collect();
    assert_eq!(pairs, vec![("500", 70), ("200", 50), ("401", 12)]);
    let top = top_statuses(&rows, "/videos", "POST");
    let pairs: Vec<(&str, i64)> = top.iter().map(|s| (s.status.as_str(), s.sample_count)).collect();
    assert_eq!(pairs, vec![("202", 7)]);
    assert!(top_statuses(&rows, "/videos", "DELETE").is_empty());
    assert!(top_statuses(&Vec::new(), "/videos", "GET").is_empty());
}

#[test]
fn equally_frequent_statuses_keep_the_order_of_their_rows() {
    let rows = vec![
        row("/r", "GET", "a", 5),
        row("/r", "GET", "b", 9),
        row("/r", "GET", "c", 5),
        row("/r", "GET", "d", 9),
        row("/r", "GET", "e", 5),
    ];
    let top = top_statuses(&rows, "/r", "GET");
    let pairs: Vec<(&str, i64)> = top.iter().map(|s| (s.status.as_str(), s.sample_count)).collect();
    assert_eq!(pairs, vec![("b", 9), ("d", 9), ("a", 5)]);
    let mut reference: Vec<(&str, i64)> =
        rows.iter().map(|r| (r.status.as_str(), r.sample_count)).collect();
    reference.sort_by(|a, b| b.1.cmp(&a.1));
    reference.truncate(3);
    assert_eq!(pairs, reference);
}
