use abs_kobo_sync::kobo_api::routes::{
    KoboFullTokenDetails, KoboSyncToken, TokenDecodeError, HEADER_NAME,
};
use abs_kobo_sync::time::{UtcInstant, RFC3339_MAX_TIMESTAMP, RFC3339_MIN_TIMESTAMP};

fn at(secs: i64) -> Option<UtcInstant> {
    Some(UtcInstant::from_timestamp(secs).unwrap())
}

fn full(token: KoboSyncToken) -> (String, KoboFullTokenDetails) {
    match token {
        KoboSyncToken::FullToken { raw_kobo_store_token, details } => {
            (raw_kobo_store_token, details)
        }
        other => panic!("not a full token: {:?}", other),
    }
}

#[test]
fn header_name_is_the_sync_token_header() {
    assert_eq!(HEADER_NAME, "x-kobo-synctoken");
}

#[test]
fn token_with_a_dot_is_the_stores_own() {
    for t in [".", "abc.def", "eyJhIjoxfQ==.eyJiIjoyfQ==", "not base64 at all.", ".x"] {
        match KoboSyncToken::from_request(t) {
            Ok(KoboSyncToken::OnlyRawToken { raw_kobo_store_token }) => {
                assert_eq!(raw_kobo_store_token, t)
            }
            other => panic!("{:?} gave {:?}", t, other),
        }
    }
}

#[test]
fn missing_header_is_no_token() {
    assert!(matches!(KoboSyncToken::decode(None), Ok(KoboSyncToken::NoToken)));
}

#[test]
fn header_is_read_as_a_token() {
    assert!(matches!(
        KoboSyncToken::decode(Some("a.b")),
        Ok(KoboSyncToken::OnlyRawToken { .. })
    ));
    assert!(matches!(
        KoboSyncToken::decode(Some("!!!")),
        Err(TokenDecodeError::InvalidFormat)
    ));
}

#[test]
fn token_that_is_not_base64_is_refused() {
    for t in ["!!!", "abc", "eyJh IjoxfQ==", "eyJhIjoxfQ", "eyJhIjoxfQ=", "-_-_"] {
        assert!(
            matches!(KoboSyncToken::from_request(t), Err(TokenDecodeError::InvalidFormat)),
            "{:?}",
            t
        );
    }
}

#[test]
fn token_that_is_not_json_is_refused() {
    // base64 of `not json`
    assert!(matches!(
        KoboSyncToken::from_request("bm90IGpzb24="),
        Err(TokenDecodeError::InvalidJson)
    ));
    // The empty text is base64 of no bytes, which are no JSON either.
    assert!(matches!(KoboSyncToken::from_request(""), Err(TokenDecodeError::InvalidJson)));
}

#[test]
fn errors_have_their_words() {
    assert_eq!(TokenDecodeError::InvalidFormat.message(), "Invalid Kobo sync token format");
    assert_eq!(TokenDecodeError::InvalidJson.message(), "Invalid Kobo sync token JSON format");
}

#[test]
fn document_without_store_token_is_no_token() {
    // base64 of `{"books_last_modified":"2024-05-01T12:30:00Z"}`
    let t = "eyJib29rc19sYXN0X21vZGlmaWVkIjoiMjAyNC0wNS0wMVQxMjozMDowMFoifQ==";
    assert!(matches!(KoboSyncToken::from_request(t), Ok(KoboSyncToken::NoToken)));
    // base64 of `[1,2]`
    assert!(matches!(KoboSyncToken::from_request("WzEsMl0="), Ok(KoboSyncToken::NoToken)));
    // base64 of `{"raw_kobo_store_token":5}`
    assert!(matches!(
        KoboSyncToken::from_request("eyJyYXdfa29ib19zdG9yZV90b2tlbiI6NX0="),
        Ok(KoboSyncToken::NoToken)
    ));
}

#[test]
fn watermarks_that_do_not_read_are_none() {
    // base64 of `{"raw_kobo_store_token":"r","books_last_modified":"yesterday",
    // "tags_last_modified":17,"books_last_created":"2024-05-01T14:30:00.750+02:00"}`
    let t = "eyJyYXdfa29ib19zdG9yZV90b2tlbiI6InIiLCJib29rc19sYXN0X21vZGlmaWVkIjoieWVzdGVyZGF5IiwidGFnc19sYXN0X21vZGlmaWVkIjoxNywiYm9va3NfbGFzdF9jcmVhdGVkIjoiMjAyNC0wNS0wMVQxNDozMDowMC43NTArMDI6MDAifQ==";
    let (raw, details) = full(KoboSyncToken::from_request(t).unwrap());
    assert_eq!(raw, "r");
    assert_eq!(
        details,
        KoboFullTokenDetails {
            books_last_modified: None,
            books_last_created: at(1714566600),
            archive_last_modified: None,
            reading_state_last_modified: None,
            tags_last_modified: None,
        }
    );
}

#[test]
fn from_document_reads_a_parsed_document() {
    let doc: serde_json::Value = serde_json::from_str(
        "{\"raw_kobo_store_token\":\"abc.def\",\"archive_last_modified\":\"1970-01-01T00:00:01Z\",\"other\":true}",
    )
    .unwrap();
    let (raw, details) = full(KoboSyncToken::from_document(&doc));
    assert_eq!(raw, "abc.def");
    assert_eq!(
        details,
        KoboFullTokenDetails { archive_last_modified: at(1), ..KoboFullTokenDetails::none() }
    );
    let doc: serde_json::Value = serde_json::from_str("{\"raw\":\"abc\"}").unwrap();
    assert!(matches!(KoboSyncToken::from_document(&doc), KoboSyncToken::NoToken));
    let doc: serde_json::Value = serde_json::from_str("\"raw_kobo_store_token\"").unwrap();
    assert!(matches!(KoboSyncToken::from_document(&doc), KoboSyncToken::NoToken));
}

#[test]
fn encode_is_base64_of_the_json_object() {
    assert_eq!(
        KoboSyncToken::encode("abc", &KoboFullTokenDetails::none()).unwrap(),
        "eyJyYXdfa29ib19zdG9yZV90b2tlbiI6ImFiYyJ9"
    );
    let details = KoboFullTokenDetails {
        books_last_modified: at(1714566600),
        books_last_created: at(0),
        archive_last_modified: at(1714566600),
        reading_state_last_modified: at(RFC3339_MAX_TIMESTAMP),
        tags_last_modified: at(RFC3339_MIN_TIMESTAMP),
    };
    assert_eq!(
        KoboSyncToken::encode("abc", &details).unwrap(),
        "eyJhcmNoaXZlX2xhc3RfbW9kaWZpZWQiOiIyMDI0LTA1LTAxVDEyOjMwOjAwWiIsImJvb2tzX2xhc3RfY3JlYXRlZCI6IjE5NzAtMDEtMDFUMDA6MDA6MDBaIiwiYm9va3NfbGFzdF9tb2RpZmllZCI6IjIwMjQtMDUtMDFUMTI6MzA6MDBaIiwicmF3X2tvYm9fc3RvcmVfdG9rZW4iOiJhYmMiLCJyZWFkaW5nX3N0YXRlX2xhc3RfbW9kaWZpZWQiOiI5OTk5LTEyLTMxVDIzOjU5OjU5WiIsInRhZ3NfbGFzdF9tb2RpZmllZCI6IjAwMDAtMDEtMDFUMDA6MDA6MDBaIn0="
    );
}

#[test]
fn document_has_one_member_for_each_watermark_there_is() {
    let details =
        KoboFullTokenDetails { tags_last_modified: at(60), ..KoboFullTokenDetails::none() };
    let doc = KoboSyncToken::document("r\"aw", &details);
    let want: serde_json::Value = serde_json::from_str(
        "{\"raw_kobo_store_token\":\"r\\\"aw\",\"tags_last_modified\":\"1970-01-01T00:01:00Z\"}",
    )
    .unwrap();
    assert_eq!(doc, want);
}

#[test]
fn full_tokens_round_trip() {
    let marks = [
        None,
        at(RFC3339_MIN_TIMESTAMP),
        at(-1),
        at(0),
        at(1714566600),
        at(RFC3339_MAX_TIMESTAMP),
    ];
    let raws = ["", "abc", "abc.def", "with \"quotes\" and \\ and \n", "ünïcödé ✓", "{}"];
    let mut n = 0;
    for (i, raw) in raws.iter().enumerate() {
        for j in 0..marks.len() {
            let details = KoboFullTokenDetails {
                books_last_modified: marks[j],
                books_last_created: marks[(j + 1) % marks.len()],
                archive_last_modified: marks[(j + 2) % marks.len()],
                reading_state_last_modified: marks[(j + i) % marks.len()],
                tags_last_modified: marks[(j + 4) % marks.len()],
            };
            let text = KoboSyncToken::encode(raw, &details).unwrap();
            assert!(!text.contains('.'));
            let (raw_back, details_back) = full(KoboSyncToken::from_request(&text).unwrap());
            assert_eq!(&raw_back, raw);
            assert_eq!(details_back, details);
            n += 1;
        }
    }
    assert_eq!(n, 36);
}

#[test]
fn watermark_beyond_year_9999_does_not_round_trip() {
    let details = KoboFullTokenDetails {
        books_last_modified: at(RFC3339_MAX_TIMESTAMP + 1),
        ..KoboFullTokenDetails::none()
    };
    let text = KoboSyncToken::encode("abc", &details).unwrap();
    let (raw, back) = full(KoboSyncToken::from_request(&text).unwrap());
    assert_eq!(raw, "abc");
    assert_eq!(back, KoboFullTokenDetails::none());
}

#[test]
fn cutoff_is_the_books_watermark_or_the_epoch() {
    assert_eq!(KoboFullTokenDetails::none().cutoff(), 0);
    let details = KoboFullTokenDetails {
        books_last_modified: at(-77),
        books_last_created: at(1000),
        ..KoboFullTokenDetails::none()
    };
    assert_eq!(details.cutoff(), -77);
}

#[test]
fn raw_token_of_each_kind_of_token() {
    assert_eq!(KoboSyncToken::NoToken.raw_token(), "");
    assert_eq!(
        KoboSyncToken::OnlyRawToken { raw_kobo_store_token: "a.b".to_string() }.raw_token(),
        "a.b"
    );
    assert_eq!(
        KoboSyncToken::FullToken {
            raw_kobo_store_token: "c".to_string(),
            details: KoboFullTokenDetails::none()
        }
        .raw_token(),
        "c"
    );
}
