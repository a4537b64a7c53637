use shortlink::decimal::decimal_string;
use shortlink::path::path_segments;
use shortlink::record::Data;
use shortlink::registry::Registry;
use shortlink::reply::Reply;
use shortlink::router::{count_reply, handle_request, parse, visit_reply, Action};

fn assert_reply(r: &Reply, status: u16, body: &str, location: Option<&str>) {
    assert_eq!(r.status, status);
    assert_eq!(r.body, body);
    assert_eq!(r.location.as_deref(), location);
}

#[test]
fn decimal_of_small_and_large_numbers() {
    assert_eq!(decimal_string(0), "0");
    assert_eq!(decimal_string(7), "7");
    assert_eq!(decimal_string(10), "10");
    assert_eq!(decimal_string(12345), "12345");
    assert_eq!(decimal_string(u64::MAX), "18446744073709551615");
}

#[test]
fn segments_of_paths() {
    assert_eq!(path_segments("/i/a/b/c"), vec!["i", "a", "b/c"]);
    assert_eq!(path_segments("/i/a/https://example.com"), vec!["i", "a", "https://example.com"]);
    assert_eq!(path_segments("/v/x"), vec!["v", "x"]);
    assert_eq!(path_segments("/"), vec![""]);
    assert_eq!(path_segments("/i/"), vec!["i", ""]);
    assert!(path_segments("").is_empty());
    assert!(path_segments("abc").is_empty());
    assert_eq!(path_segments("/é/ü"), vec!["é", "ü"]);
}

#[test]
fn parse_recognises_operations() {
    match parse("/i/s/l") {
        Action::Register { slug, location } => {
            assert_eq!(slug, "s");
            assert_eq!(location, "l");
        }
        _ => panic!("expected a registration"),
    }
    match parse("/v/s") {
        Action::Count { slug } => assert_eq!(slug, "s"),
        _ => panic!("expected a count"),
    }
    match parse("/s/extra") {
        Action::Redirect { slug } => assert_eq!(slug, "s"),
        _ => panic!("expected a redirect"),
    }
    match parse("") {
        Action::Reject(r) => assert_reply(&r, 404, "", None),
        _ => panic!("expected a rejection"),
    }
}

#[test]
fn count_and_visit_replies() {
    assert_reply(&count_reply(Some(42)), 200, "42", None);
    assert_reply(&count_reply(None), 404, "", None);
    assert_reply(&visit_reply(None), 404, "", None);
    let record = Data::new("https://example.org".to_string());
    assert_reply(&visit_reply(Some(record.clone())), 302, "", Some("https://example.org"));
    assert_eq!(record.visits(), 1);
}

#[test]
fn new_record_starts_at_zero() {
    let record = Data::new("dest".to_string());
    assert_eq!(record.location, "dest");
    assert_eq!(record.visits(), 0);
    record.visit();
    record.visit();
    assert_eq!(record.visits(), 2);
}

#[test]
fn registry_increment_visits() {
    let registry = Registry::new();
    assert!(!registry.increment_visits("s"));
    assert!(registry.get("s").is_none());
    registry.insert("s", "dest");
    assert!(registry.increment_visits("s"));
    assert!(registry.increment_visits("s"));
    let record = registry.get("s").unwrap();
    assert_eq!(record.location, "dest");
    assert_eq!(record.visits(), 2);
}

#[test]
fn overwrite_replaces_location_and_count() {
    let registry = Registry::new();
    registry.insert("s", "A");
    assert!(registry.increment_visits("s"));
    assert!(registry.increment_visits("s"));
    assert!(registry.increment_visits("s"));
    registry.insert("s", "B");
    assert_reply(&handle_request(&registry, "/v/s"), 200, "0", None);
    assert_reply(&handle_request(&registry, "/s"), 302, "", Some("B"));
}

#[test]
fn unknown_slug_is_not_found() {
    let registry = Registry::new();
    assert_reply(&handle_request(&registry, "/anything-never-inserted"), 404, "", None);
    assert_reply(&handle_request(&registry, "/v/anything-never-inserted"), 404, "", None);
}

#[test]
fn missing_segments_are_bad_requests() {
    let registry = Registry::new();
    assert_reply(&handle_request(&registry, "/i"), 400, "slug not provided", None);
    assert_reply(&handle_request(&registry, "/i/myslug"), 400, "location not provided", None);
    assert_reply(&handle_request(&registry, "/v"), 400, "slug not provided", None);
    assert!(registry.get("myslug").is_none());
}

#[test]
fn empty_path_is_not_found() {
    let registry = Registry::new();
    assert_reply(&handle_request(&registry, ""), 404, "", None);
    assert_reply(&handle_request(&registry, "/"), 404, "", None);
}

#[test]
fn register_redirect_and_count_round_trip() {
    let registry = Registry::new();
    assert_reply(&handle_request(&registry, "/i/a1/https://example.com"), 200, "", None);
    assert_reply(&handle_request(&registry, "/a1"), 302, "", Some("https://example.com"));
    assert_reply(&handle_request(&registry, "/v/a1"), 200, "1", None);
}

#[test]
fn round_trip_through_insert() {
    let registry = Registry::new();
    registry.insert("a1", "https://example.com");
    assert_reply(&handle_request(&registry, "/a1"), 302, "", Some("https://example.com"));
    assert_reply(&handle_request(&registry, "/v/a1"), 200, "1", None);
}

#[test]
fn count_query_does_not_count() {
    let registry = Registry::new();
    registry.insert("s", "d");
    assert_reply(&handle_request(&registry, "/v/s"), 200, "0", None);
    assert_reply(&handle_request(&registry, "/v/s"), 200, "0", None);
}

#[test]
fn operator_names_are_not_redirect_targets() {
    let registry = Registry::new();
    registry.insert("i", "https://example.com/i");
    registry.insert("v", "https://example.com/v");
    assert_reply(&handle_request(&registry, "/i"), 400, "slug not provided", None);
    assert_reply(&handle_request(&registry, "/v"), 400, "slug not provided", None);
    assert_eq!(registry.get("i").unwrap().visits(), 0);
    assert_eq!(registry.get("v").unwrap().visits(), 0);
}

#[test]
fn slugs_and_locations_are_opaque() {
    let registry = Registry::new();
    assert_reply(&handle_request(&registry, "/i/ü%20x/not a url"), 200, "", None);
    assert_reply(&handle_request(&registry, "/ü%20x"), 302, "", Some("not a url"));
    assert_reply(&handle_request(&registry, "/i//empty"), 200, "", None);
    assert_reply(&handle_request(&registry, "/"), 302, "", Some("empty"));
}
