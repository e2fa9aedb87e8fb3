use abs_kobo_sync::encoding::{decode_text, encode_bytes};
use abs_kobo_sync::json::get_string;

#[test]
fn base64_is_standard_with_padding() {
    assert_eq!(encode_bytes(&vec![]).unwrap(), "");
    assert_eq!(encode_bytes(&b"f".to_vec()).unwrap(), "Zg==");
    assert_eq!(encode_bytes(&b"fo".to_vec()).unwrap(), "Zm8=");
    assert_eq!(encode_bytes(&b"foo".to_vec()).unwrap(), "Zm9v");
    assert_eq!(encode_bytes(&vec![0xfb, 0xff, 0xfe]).unwrap(), "+//+");
    assert_eq!(decode_text("Zm9v"), Some(b"foo".to_vec()));
    assert_eq!(decode_text("Zg=="), Some(b"f".to_vec()));
    assert_eq!(decode_text("+//+"), Some(vec![0xfb, 0xff, 0xfe]));
    assert_eq!(decode_text(""), Some(vec![]));
}

#[test]
fn base64_refuses_what_is_not_canonical() {
    for t in ["Zg", "Zg=", "Z", "Zm9v!", "-__-", "Zm 9v", "Zh=="] {
        assert_eq!(decode_text(t), None, "{:?}", t);
    }
}

#[test]
fn base64_reads_back_all_bytes() {
    let all: Vec<u8> = (0..=255u8).collect();
    let text = encode_bytes(&all).unwrap();
    assert!(!text.contains('.'));
    assert_eq!(decode_text(&text), Some(all));
}

#[test]
fn get_string_gives_text_members_only() {
    let doc: serde_json::Value =
        serde_json::from_str("{\"a\":\"x\",\"b\":1,\"c\":null,\"d\":[\"y\"],\"e\":\"\"}").unwrap();
    assert_eq!(get_string(&doc, "a"), Some("x".to_string()));
    assert_eq!(get_string(&doc, "e"), Some("".to_string()));
    assert_eq!(get_string(&doc, "b"), None);
    assert_eq!(get_string(&doc, "c"), None);
    assert_eq!(get_string(&doc, "d"), None);
    assert_eq!(get_string(&doc, "f"), None);
    let not_an_object: serde_json::Value = serde_json::from_str("[\"a\"]").unwrap();
    assert_eq!(get_string(&not_an_object, "a"), None);
}
