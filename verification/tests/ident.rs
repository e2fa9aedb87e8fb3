use abs_kobo_sync::config::Config;
use abs_kobo_sync::ident::SERIES_NAMESPACE;
use abs_kobo_sync::kobo_api::models::kobo::series_named;
use abs_kobo_sync::kobo_api::services::sync::download_url_for;
use uuid::Uuid;

fn text_of(id: u128) -> String {
    let url = download_url_for(id);
    url.strip_prefix("https://example.com/download/").unwrap().to_string()
}

fn parse(text: &str) -> Option<u128> {
    Config::from_values(None, None, None, None, Some(text.to_string())).ok().map(|c| c.library_id)
}

#[test]
fn text_of_an_identifier_is_hyphenated_lower_case() {
    assert_eq!(text_of(0), "00000000-0000-0000-0000-000000000000");
    assert_eq!(text_of(1), "00000000-0000-0000-0000-000000000001");
    assert_eq!(text_of(u128::MAX), "ffffffff-ffff-ffff-ffff-ffffffffffff");
    assert_eq!(
        text_of(0x22809dbe_3137_4879_831e_d64a6f29b005),
        "22809dbe-3137-4879-831e-d64a6f29b005"
    );
    assert_eq!(
        text_of(0x0123456789abcdef_fedcba9876543210),
        "01234567-89ab-cdef-fedc-ba9876543210"
    );
}

#[test]
fn identifiers_are_the_big_endian_number_of_a_uuid() {
    let id = Uuid::parse_str("a1a2a3a4-b1b2-c1c2-d1d2-d3d4d5d6d7d8").unwrap();
    assert_eq!(id.as_u128(), 0xa1a2a3a4b1b2c1c2d1d2d3d4d5d6d7d8);
    assert_eq!(text_of(id.as_u128()), id.to_string());
}

#[test]
fn parse_reads_the_forms_of_a_uuid() {
    let want = Some(0x22809dbe_3137_4879_831e_d64a6f29b005u128);
    assert_eq!(parse("22809dbe-3137-4879-831e-d64a6f29b005"), want);
    assert_eq!(parse("22809DBE-3137-4879-831E-D64A6F29B005"), want);
    assert_eq!(parse("22809dbe31374879831ed64a6f29b005"), want);
    assert_eq!(parse("00000000-0000-0000-0000-000000000001"), Some(1));
    assert_eq!(parse(""), None);
    assert_eq!(parse("not-a-uuid"), None);
    assert_eq!(parse("22809dbe-3137-4879-831e-d64a6f29b00"), None);
}

#[test]
fn parse_reads_back_what_is_written() {
    for id in [0u128, 1, 42, u128::MAX, 0x22809dbe_3137_4879_831e_d64a6f29b005] {
        assert_eq!(parse(&text_of(id)), Some(id));
    }
}

#[test]
fn series_identifiers_are_name_based_under_the_oid_namespace() {
    assert_eq!(SERIES_NAMESPACE, Uuid::NAMESPACE_OID.as_u128());
    assert_eq!(
        series_named("Discworld").unwrap().id,
        Uuid::new_v5(&Uuid::NAMESPACE_OID, b"Discworld").as_u128()
    );
    assert_eq!(series_named("Discworld").unwrap().id, 0x40fa108b_89c8_56d7_bacf_18a4da3a0d50);
    let id = Uuid::from_u128(series_named("Émile").unwrap().id);
    assert_eq!(id.get_version_num(), 5);
    assert_eq!(id, Uuid::new_v5(&Uuid::NAMESPACE_OID, "Émile".as_bytes()));
}
