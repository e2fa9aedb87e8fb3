use abs_kobo_sync::abs_client::{opt_i64_from_str_or_num, AbsClient, NumOrStr};

const ITEM: u128 = 0x22809dbe_3137_4879_831e_d64a6f29b005;

#[test]
fn build_cover_url_basic() {
    let c = AbsClient::new("http://localhost:8080/audiobookshelf");
    let url = c.cover_url(ITEM, Some((600, 800)), Some("jpeg"), false);
    assert_eq!(
        url,
        "http://localhost:8080/audiobookshelf/api/items/22809dbe-3137-4879-831e-d64a6f29b005/cover?width=600&height=800&format=jpeg"
    );
}

#[test]
fn cover_url_without_parameters_has_no_query() {
    let c = AbsClient::new("http://abs.local/");
    assert_eq!(
        c.cover_url(ITEM, None, None, false),
        "http://abs.local/api/items/22809dbe-3137-4879-831e-d64a6f29b005/cover"
    );
}

#[test]
fn cover_url_raw_comes_last() {
    let c = AbsClient::new("http://abs.local");
    assert_eq!(
        c.cover_url(ITEM, Some((0, 4294967295)), None, true),
        "http://abs.local/api/items/22809dbe-3137-4879-831e-d64a6f29b005/cover?width=0&height=4294967295&raw=1"
    );
}

#[test]
fn new_drops_every_trailing_slash() {
    assert_eq!(AbsClient::new("http://abs.local///").base_url, "http://abs.local");
    assert_eq!(AbsClient::new("///").base_url, "");
    assert_eq!(AbsClient::new("a/b").base_url, "a/b");
    assert!(AbsClient::new("x").api_key.is_none());
}

#[test]
fn url_joins_with_exactly_one_slash() {
    let c = AbsClient::new("http://abs.local/");
    assert_eq!(c.url("/status"), "http://abs.local/status");
    assert_eq!(c.url("status"), "http://abs.local/status");
    assert_eq!(c.url(""), "http://abs.local/");
}

#[test]
fn auth_header_is_bearer() {
    let c = AbsClient::new("http://abs.local");
    assert_eq!(c.auth_header(), None);
    let c = c.with_api_key("k3y".to_string());
    assert_eq!(
        c.auth_header(),
        Some(("Authorization".to_string(), "Bearer k3y".to_string()))
    );
}

#[test]
fn status_request_goes_to_status() {
    let c = AbsClient::new("http://abs.local").with_api_key("k".to_string());
    let r = c.get_status_request();
    assert_eq!(r.url, "http://abs.local/status");
    assert_eq!(r.auth, Some(("Authorization".to_string(), "Bearer k".to_string())));
    assert!(r.query.is_empty());
}

#[test]
fn item_request_writes_its_parameters_into_the_address() {
    let c = AbsClient::new("http://abs.local");
    assert_eq!(c.get_item_request("abc", false, None).url, "http://abs.local/api/items/abc");
    assert_eq!(
        c.get_item_request("abc", true, None).url,
        "http://abs.local/api/items/abc?expanded=1"
    );
    assert_eq!(
        c.get_item_request("abc", true, Some("media")).url,
        "http://abs.local/api/items/abc?expanded=1&include=media"
    );
    assert_eq!(
        c.get_item_request("abc", false, Some("media")).url,
        "http://abs.local/api/items/abc?include=media"
    );
}

#[test]
fn libraries_request_goes_to_libraries() {
    let c = AbsClient::new("http://abs.local");
    let r = c.get_libraries_request();
    assert_eq!(r.url, "http://abs.local/api/libraries");
    assert_eq!(r.auth, None);
}

#[test]
fn series_request_sends_filter_and_page_always() {
    let c = AbsClient::new("http://abs.local");
    let r = c.get_library_series_request("lib1", 10, None, None);
    assert_eq!(r.url, "http://abs.local/api/libraries/lib1/series");
    assert_eq!(
        r.query,
        vec![
            ("limit".to_string(), "10".to_string()),
            ("filter".to_string(), "".to_string()),
            ("page".to_string(), "0".to_string()),
        ]
    );
    let r = c.get_library_series_request("lib1", -5, Some(3), Some("f"));
    assert_eq!(
        r.query,
        vec![
            ("limit".to_string(), "-5".to_string()),
            ("filter".to_string(), "f".to_string()),
            ("page".to_string(), "3".to_string()),
        ]
    );
}

#[test]
fn items_request_sends_include_and_filter_only_where_given() {
    let c = AbsClient::new("http://abs.local");
    let r = c.get_library_items_request(ITEM, 0, None, None, None);
    assert_eq!(
        r.url,
        "http://abs.local/api/libraries/22809dbe-3137-4879-831e-d64a6f29b005/items"
    );
    assert_eq!(
        r.query,
        vec![("limit".to_string(), "0".to_string()), ("page".to_string(), "0".to_string())]
    );
    let r = c.get_library_items_request(ITEM, 50, Some(2), Some("media"), Some("x"));
    assert_eq!(
        r.query,
        vec![
            ("limit".to_string(), "50".to_string()),
            ("page".to_string(), "2".to_string()),
            ("include".to_string(), "media".to_string()),
            ("filter".to_string(), "x".to_string()),
        ]
    );
    let r = c.get_library_items_request(ITEM, i64::MIN, Some(i64::MAX), None, Some("x"));
    assert_eq!(
        r.query,
        vec![
            ("limit".to_string(), "-9223372036854775808".to_string()),
            ("page".to_string(), "9223372036854775807".to_string()),
            ("filter".to_string(), "x".to_string()),
        ]
    );
}

#[test]
fn year_from_number_or_text() {
    assert_eq!(opt_i64_from_str_or_num(None), None);
    assert_eq!(opt_i64_from_str_or_num(Some(NumOrStr::Num(2011))), Some(2011));
    assert_eq!(opt_i64_from_str_or_num(Some(NumOrStr::Str("2011".to_string()))), Some(2011));
    assert_eq!(opt_i64_from_str_or_num(Some(NumOrStr::Str(" 2011\n".to_string()))), Some(2011));
    assert_eq!(opt_i64_from_str_or_num(Some(NumOrStr::Str("".to_string()))), None);
    assert_eq!(opt_i64_from_str_or_num(Some(NumOrStr::Str("20x1".to_string()))), None);
    assert_eq!(opt_i64_from_str_or_num(Some(NumOrStr::Str("-44".to_string()))), Some(-44));
}
