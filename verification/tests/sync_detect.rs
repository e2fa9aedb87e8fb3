use abs_kobo_sync::abs_client::{BookMetadata, LibraryItem, Media};
use abs_kobo_sync::kobo_api::models::kobo::KoboSyncEntitlement;
use abs_kobo_sync::kobo_api::services::sync::{
    classify_item, detect_changes, download_url_for, index_records, item_is_supported,
    plan_delivery, SyncRecordUpdate, SyncType, SYNC_ITEM_LIMIT,
};
use abs_kobo_sync::storage::SyncRecord;
use abs_kobo_sync::time::{UtcInstant, MAX_TIMESTAMP};
use std::collections::HashMap;

const DEVICE: u128 = 0xd0;
const OTHER_DEVICE: u128 = 0xd1;

fn item(id: u128, added_at: i64, updated_at: i64, format: Option<&str>) -> LibraryItem {
    LibraryItem {
        id,
        ino: "1".to_string(),
        old_library_item_id: None,
        library_id: "lib".to_string(),
        folder_id: "fol".to_string(),
        path: "/books/x".to_string(),
        rel_path: "x".to_string(),
        is_file: false,
        mtime_ms: 0,
        ctime_ms: 0,
        birthtime_ms: 0,
        added_at,
        updated_at,
        is_missing: false,
        is_invalid: false,
        media_type: "book".to_string(),
        media: Media {
            id: "m".to_string(),
            metadata: BookMetadata {
                title: Some(format!("Book {}", id)),
                subtitle: None,
                title_ignore_prefix: None,
                author_name: None,
                author_name_lf: None,
                narrator_name: None,
                series_name: None,
                genres: vec![],
                published_year: None,
                published_date: None,
                publisher: None,
                description: None,
                isbn: None,
                asin: None,
                language: None,
                explicit: None,
                abridged: None,
            },
            cover_path: None,
            tags: vec![],
            num_tracks: 0,
            num_audio_files: 0,
            num_chapters: 0,
            size: 0,
            ebook_format: format.map(|f| f.to_string()),
        },
        num_files: 1,
        size: 0,
    }
}

fn record(device_id: u128, remote_item_id: u128, synced_at: i64) -> SyncRecord {
    SyncRecord { id: remote_item_id + 1000, device_id, remote_item_id, synced_at }
}

fn kinds(changes: &Vec<(SyncType, &LibraryItem)>) -> Vec<(SyncType, u128)> {
    changes.iter().map(|(k, i)| (*k, i.id)).collect()
}

#[test]
fn three_items_without_records_are_all_new() {
    let items = vec![
        item(1, 10, 10, Some("epub")),
        item(2, 20, 25, Some("epub")),
        item(3, 5, 30, Some("kepub")),
    ];
    let changes = detect_changes(0, &items, &HashMap::new());
    assert_eq!(
        kinds(&changes),
        vec![(SyncType::New, 1), (SyncType::New, 2), (SyncType::New, 3)]
    );
}

#[test]
fn item_synced_at_its_present_version_is_excluded() {
    let items = vec![item(1, 10, 50, Some("epub"))];
    let synced = index_records(&vec![record(DEVICE, 1, 50)], DEVICE);
    assert!(50 > 0);
    assert!(detect_changes(0, &items, &synced).is_empty());
    assert_eq!(classify_item(&items[0], 0, &synced), None);
    let later = index_records(&vec![record(DEVICE, 1, 51)], DEVICE);
    assert_eq!(classify_item(&items[0], 0, &later), None);
}

#[test]
fn item_updated_since_it_was_synced_is_an_update() {
    let items = vec![item(1, 10, 50, Some("epub"))];
    let synced = index_records(&vec![record(DEVICE, 1, 49)], DEVICE);
    assert_eq!(kinds(&detect_changes(0, &items, &synced)), vec![(SyncType::Update, 1)]);
}

#[test]
fn item_without_a_supported_ebook_never_counts() {
    for format in [None, Some("pdf"), Some("EPUB"), Some(""), Some("mobi"), Some("epub ")] {
        let it = item(1, 10, 50, format);
        assert!(!item_is_supported(&it), "{:?}", format);
        assert_eq!(classify_item(&it, 0, &HashMap::new()), None, "{:?}", format);
    }
    assert!(item_is_supported(&item(1, 0, 0, Some("epub"))));
    assert!(item_is_supported(&item(1, 0, 0, Some("kepub"))));
}

#[test]
fn item_not_after_the_watermark_is_no_candidate() {
    let synced = HashMap::new();
    assert_eq!(classify_item(&item(1, 100, 100, Some("epub")), 100, &synced), None);
    assert_eq!(classify_item(&item(1, 99, 100, Some("epub")), 100, &synced), None);
    assert_eq!(
        classify_item(&item(1, 101, 100, Some("epub")), 100, &synced),
        Some(SyncType::New)
    );
    assert_eq!(
        classify_item(&item(1, 50, 101, Some("epub")), 100, &synced),
        Some(SyncType::New)
    );
    assert_eq!(classify_item(&item(1, -5, -5, Some("epub")), 0, &synced), None);
    assert_eq!(
        classify_item(&item(1, -5, -5, Some("epub")), -6, &synced),
        Some(SyncType::New)
    );
}

#[test]
fn candidate_by_added_at_with_current_record_is_excluded() {
    // Added after the watermark, but the device has the present version.
    let it = item(1, 200, 150, Some("epub"));
    let synced = index_records(&vec![record(DEVICE, 1, 150)], DEVICE);
    assert_eq!(classify_item(&it, 100, &synced), None);
}

#[test]
fn changes_keep_the_order_of_the_listing() {
    let items = vec![
        item(9, 10, 10, Some("epub")),
        item(3, 10, 10, Some("pdf")),
        item(7, 10, 90, Some("epub")),
        item(1, 10, 10, Some("epub")),
        item(5, 10, 10, Some("epub")),
    ];
    let synced = index_records(&vec![record(DEVICE, 7, 10), record(DEVICE, 1, 10)], DEVICE);
    assert_eq!(
        kinds(&detect_changes(0, &items, &synced)),
        vec![(SyncType::New, 9), (SyncType::Update, 7), (SyncType::New, 5)]
    );
}

#[test]
fn index_takes_the_records_of_the_device_only_and_the_later_of_two() {
    let index = index_records(
        &vec![
            record(DEVICE, 1, 10),
            record(OTHER_DEVICE, 2, 20),
            record(DEVICE, 3, 30),
            record(DEVICE, 1, 5),
        ],
        DEVICE,
    );
    assert_eq!(index.len(), 2);
    assert_eq!(index.get(&1), Some(&5));
    assert_eq!(index.get(&3), Some(&30));
    assert_eq!(index.get(&2), None);
}

#[test]
fn download_url_names_the_item() {
    assert_eq!(
        download_url_for(0x22809dbe_3137_4879_831e_d64a6f29b005),
        "https://example.com/download/22809dbe-3137-4879-831e-d64a6f29b005"
    );
}

#[test]
fn plan_maps_new_to_new_and_update_to_changed() {
    let a = item(1, 10, 11, Some("epub"));
    let b = item(2, 20, 22, Some("epub"));
    let changes = vec![(SyncType::New, &a), (SyncType::Update, &b)];
    let now = UtcInstant::from_timestamp(1000).unwrap();
    let (entitlements, records, skipped) = plan_delivery(DEVICE, &changes, now);
    assert!(skipped.is_empty());
    assert_eq!(entitlements.len(), 2);
    match &entitlements[0] {
        KoboSyncEntitlement::NewEntitlement(e) => {
            assert_eq!(e.new_entitlement.book_entitlement.id, 1);
            assert_eq!(e.new_entitlement.book_entitlement.active_period.from, now);
            assert_eq!(
                e.new_entitlement.book_metadata.download_urls,
                vec!["https://example.com/download/00000000-0000-0000-0000-000000000001"
                    .to_string()]
            );
        }
        other => panic!("{:?}", other),
    }
    match &entitlements[1] {
        KoboSyncEntitlement::ChangedEntitlement(e) => {
            assert_eq!(e.changed_entitlement.book_entitlement.id, 2);
            assert_eq!(e.changed_entitlement.book_metadata.title, "Book 2");
        }
        other => panic!("{:?}", other),
    }
    assert_eq!(
        records,
        vec![
            SyncRecordUpdate { device_id: DEVICE, remote_item_id: 1, synced_at: 11 },
            SyncRecordUpdate { device_id: DEVICE, remote_item_id: 2, synced_at: 22 },
        ]
    );
}

#[test]
fn plan_takes_no_more_than_the_limit() {
    assert_eq!(SYNC_ITEM_LIMIT, 100);
    let items: Vec<LibraryItem> =
        (0..101u128).map(|n| item(n, 1, 1 + n as i64, Some("epub"))).collect();
    let changes: Vec<(SyncType, &LibraryItem)> =
        items.iter().map(|i| (SyncType::New, i)).collect();
    let now = UtcInstant::epoch();
    let (entitlements, records, skipped) = plan_delivery(DEVICE, &changes, now);
    assert!(skipped.is_empty());
    assert_eq!(entitlements.len(), 100);
    assert_eq!(records.len(), 100);
    assert_eq!(records[0].remote_item_id, 0);
    assert_eq!(records[99].remote_item_id, 99);
    let fewer: Vec<(SyncType, &LibraryItem)> = changes[..100].to_vec();
    assert_eq!(plan_delivery(DEVICE, &fewer, now).0.len(), 100);
    assert_eq!(plan_delivery(DEVICE, &vec![], now).0.len(), 0);
}

#[test]
fn plan_passes_over_an_item_whose_times_cannot_be_told() {
    let a = item(1, 10, 11, Some("epub"));
    let bad = item(2, 10, MAX_TIMESTAMP + 1, Some("epub"));
    let worse = item(3, i64::MIN, 11, Some("epub"));
    let c = item(4, 10, 12, Some("epub"));
    let changes =
        vec![(SyncType::New, &a), (SyncType::New, &bad), (SyncType::Update, &worse), (SyncType::Update, &c)];
    let (entitlements, records, skipped) = plan_delivery(DEVICE, &changes, UtcInstant::epoch());
    assert_eq!(skipped, vec![2, 3]);
    assert_eq!(entitlements.len(), 2);
    assert!(matches!(entitlements[0], KoboSyncEntitlement::NewEntitlement(_)));
    assert!(matches!(entitlements[1], KoboSyncEntitlement::ChangedEntitlement(_)));
    assert_eq!(
        records,
        vec![
            SyncRecordUpdate { device_id: DEVICE, remote_item_id: 1, synced_at: 11 },
            SyncRecordUpdate { device_id: DEVICE, remote_item_id: 4, synced_at: 12 },
        ]
    );
}
