use abs_kobo_sync::abs_client::{BookMetadata as AbsBookMetadata, LibraryItem, Media};
use abs_kobo_sync::kobo_api::models::kobo::{
    series_named, timestamp_to_utc, ActivePeriod, BookAccessibility, BookEntitlement,
    BookMetadata, BookOriginCategory, BookStatus, ItemMappingError, KoboSyncEntitlement,
    KoboSyncedBook, KoboSyncedContributorRole, KoboSyncedSeries, DEFAULT_CATEGORY,
};
use abs_kobo_sync::kobo_api::services::sync::{entitlement_from, SyncType};
use abs_kobo_sync::time::{UtcInstant, MAX_TIMESTAMP, MIN_TIMESTAMP};

const ID: u128 = 0x075ebcee_d657_4b01_a96d_b94fadb1898c;

fn plain_item(id: u128, added_at: i64, updated_at: i64, format: Option<&str>) -> LibraryItem {
    LibraryItem {
        id,
        ino: "1".to_string(),
        old_library_item_id: None,
        library_id: "lib".to_string(),
        folder_id: "fol".to_string(),
        path: "/books/x".to_string(),
        rel_path: "x".to_string(),
        is_file: false,
        mtime_ms: 0,
        ctime_ms: 0,
        birthtime_ms: 0,
        added_at,
        updated_at,
        is_missing: false,
        is_invalid: false,
        media_type: "book".to_string(),
        media: Media {
            id: "m".to_string(),
            metadata: AbsBookMetadata {
                title: Some(format!("Book {}", id)),
                subtitle: None,
                title_ignore_prefix: None,
                author_name: None,
                author_name_lf: None,
                narrator_name: None,
                series_name: None,
                genres: vec![],
                published_year: None,
                published_date: None,
                publisher: None,
                description: None,
                isbn: None,
                asin: None,
                language: None,
                explicit: None,
                abridged: None,
            },
            cover_path: None,
            tags: vec![],
            num_tracks: 0,
            num_audio_files: 0,
            num_chapters: 0,
            size: 0,
            ebook_format: format.map(|f| f.to_string()),
        },
        num_files: 1,
        size: 0,
    }
}


fn handbook() -> LibraryItem {
    let mut it = plain_item(ID, 1703767976, 1747214658, Some("epub"));
    it.media.metadata.title = Some("Player's Handbook".to_string());
    it.media.metadata.author_name =
        Some("Richard Baker, Jeremy Crawford,Bruce R. Cordell ".to_string());
    it.media.metadata.series_name = Some("Discworld".to_string());
    it.media.metadata.description = Some("Rules.".to_string());
    it.media.metadata.language = Some("English".to_string());
    it.media.metadata.published_date = Some("2014-08-19T00:00:00Z".to_string());
    it
}

#[test]
fn timestamp_to_utc_is_the_instant() {
    assert_eq!(timestamp_to_utc(0), UtcInstant::epoch());
    assert_eq!(timestamp_to_utc(1703767976).timestamp(), 1703767976);
    assert_eq!(timestamp_to_utc(MIN_TIMESTAMP).timestamp(), MIN_TIMESTAMP);
}

#[test]
fn defaults_of_the_one_variant_enums() {
    assert_eq!(BookAccessibility::default(), BookAccessibility::Full);
    assert_eq!(BookStatus::default(), BookStatus::Active);
    assert_eq!(BookOriginCategory::default(), BookOriginCategory::Imported);
}

#[test]
fn entitlement_carries_the_identifier_of_the_item_everywhere() {
    let now = UtcInstant::from_timestamp(1_800_000_000).unwrap();
    assert_eq!(
        BookEntitlement::from_library_item(&handbook(), now),
        BookEntitlement {
            accessibility: BookAccessibility::Full,
            active_period: ActivePeriod { from: now },
            created: UtcInstant::from_timestamp(1703767976).unwrap(),
            cross_revision_id: ID,
            id: ID,
            is_removed: false,
            is_hidden_from_archive: false,
            is_locked: false,
            last_modified: UtcInstant::from_timestamp(1747214658).unwrap(),
            origin_category: BookOriginCategory::Imported,
            revision_id: ID,
            status: BookStatus::Active,
        }
    );
}

#[test]
fn metadata_of_a_full_item() {
    let urls = vec!["https://example.com/download/x".to_string()];
    let m = BookMetadata::try_from_library_item(&handbook(), urls.clone()).unwrap();
    assert_eq!(m.categories, vec![DEFAULT_CATEGORY]);
    assert_eq!(DEFAULT_CATEGORY, 1);
    assert_eq!(m.genre, 1);
    assert_eq!(
        (m.cover_image_id, m.cross_revision_id, m.entitlement_id, m.revision_id, m.work_id),
        (ID, ID, ID, ID, ID)
    );
    assert_eq!(m.description.as_deref(), Some("Rules."));
    assert_eq!(m.download_urls, urls);
    assert!(m.external_ids.is_empty());
    assert_eq!(
        (m.is_eligible_for_kobo_love, m.is_internet_archive, m.is_pre_order, m.is_social_enabled),
        (false, false, false, true)
    );
    assert_eq!(m.language, "English");
    assert_eq!(m.publication_date.timestamp(), 1408406400);
    assert_eq!(m.title, "Player's Handbook");
    assert_eq!(
        m.contributors,
        Some(vec![
            "Richard Baker".to_string(),
            "Jeremy Crawford".to_string(),
            "Bruce R. Cordell".to_string()
        ])
    );
    assert_eq!(
        m.contributor_roles,
        Some(vec![
            KoboSyncedContributorRole { name: "Richard Baker".to_string() },
            KoboSyncedContributorRole { name: "Jeremy Crawford".to_string() },
            KoboSyncedContributorRole { name: "Bruce R. Cordell".to_string() },
        ])
    );
    assert_eq!(
        m.series,
        Some(KoboSyncedSeries {
            name: "Discworld".to_string(),
            id: 0x40fa108b_89c8_56d7_bacf_18a4da3a0d50
        })
    );
}

#[test]
fn metadata_of_a_bare_item_takes_the_defaults() {
    let mut it = plain_item(ID, 1, 2, Some("epub"));
    it.media.metadata.title = None;
    let m = BookMetadata::try_from_library_item(&it, vec![]).unwrap();
    assert_eq!(m.title, "Untitled");
    assert_eq!(m.language, "en");
    assert_eq!(m.publication_date, UtcInstant::epoch());
    assert_eq!(m.description, None);
    assert_eq!(m.contributors, None);
    assert_eq!(m.contributor_roles, None);
    assert_eq!(m.series, None);
    assert!(m.download_urls.is_empty());
}

#[test]
fn publication_date_that_does_not_read_is_the_epoch() {
    for date in ["", "2014", "2014-08-19", "19 August 2014", "+12014-08-19T00:00:00Z"] {
        let mut it = plain_item(ID, 1, 2, Some("epub"));
        it.media.metadata.published_date = Some(date.to_string());
        let m = BookMetadata::try_from_library_item(&it, vec![]).unwrap();
        assert_eq!(m.publication_date, UtcInstant::epoch(), "{:?}", date);
    }
}

#[test]
fn empty_author_line_is_one_empty_contributor_not_none() {
    let mut it = plain_item(ID, 1, 2, Some("epub"));
    it.media.metadata.author_name = Some("".to_string());
    let m = BookMetadata::try_from_library_item(&it, vec![]).unwrap();
    assert_eq!(m.contributors, Some(vec!["".to_string()]));
}

#[test]
fn empty_series_name_is_no_series() {
    let mut it = plain_item(ID, 1, 2, Some("epub"));
    it.media.metadata.series_name = Some("".to_string());
    assert_eq!(BookMetadata::try_from_library_item(&it, vec![]).unwrap().series, None);
    assert_eq!(series_named(""), None);
}

#[test]
fn same_series_name_same_id_and_other_name_other_id() {
    let mut a = plain_item(1, 1, 2, Some("epub"));
    let mut b = plain_item(2, 3, 4, Some("epub"));
    let mut c = plain_item(3, 5, 6, Some("epub"));
    a.media.metadata.series_name = Some("The Expanse".to_string());
    b.media.metadata.series_name = Some("The Expanse".to_string());
    c.media.metadata.series_name = Some("Discworld".to_string());
    let sa = BookMetadata::try_from_library_item(&a, vec![]).unwrap().series.unwrap();
    let sb = BookMetadata::try_from_library_item(&b, vec![]).unwrap().series.unwrap();
    let sc = BookMetadata::try_from_library_item(&c, vec![]).unwrap().series.unwrap();
    assert_eq!(sa.id, sb.id);
    assert_eq!(sa.id, 0x65c4269f_d07c_5c0b_a0f6_2905a4b953cb);
    assert_ne!(sa.id, sc.id);
    assert_ne!(series_named("discworld").unwrap().id, sc.id);
    assert_eq!(
        series_named("Sword of Truth #1").unwrap().id,
        0x1f54fc97_0ed7_5190_afff_73763afc810d
    );
}

#[test]
fn item_whose_times_cannot_be_told_is_refused() {
    for (added, updated) in [
        (MAX_TIMESTAMP + 1, 0),
        (0, MAX_TIMESTAMP + 1),
        (MIN_TIMESTAMP - 1, 0),
        (0, i64::MIN),
        (i64::MAX, i64::MAX),
    ] {
        let it = plain_item(ID, added, updated, Some("epub"));
        assert_eq!(
            BookMetadata::try_from_library_item(&it, vec![]),
            Err(ItemMappingError::TimestampOutOfRange)
        );
        assert_eq!(
            KoboSyncedBook::try_from_library_item(&it, vec![], UtcInstant::epoch()),
            Err(ItemMappingError::TimestampOutOfRange)
        );
    }
    let edge = plain_item(ID, MIN_TIMESTAMP, MAX_TIMESTAMP, Some("epub"));
    assert!(BookMetadata::try_from_library_item(&edge, vec![]).is_ok());
    assert_eq!(
        ItemMappingError::TimestampOutOfRange.message(),
        "Item timestamp is out of range"
    );
}

#[test]
fn book_is_entitlement_and_metadata() {
    let now = UtcInstant::from_timestamp(77).unwrap();
    let book = KoboSyncedBook::try_from_library_item(&handbook(), vec![], now).unwrap();
    assert_eq!(book.book_entitlement, BookEntitlement::from_library_item(&handbook(), now));
    assert_eq!(
        book.book_metadata,
        BookMetadata::try_from_library_item(&handbook(), vec![]).unwrap()
    );
}

#[test]
fn entitlement_is_new_exactly_for_a_new_item() {
    let now = UtcInstant::epoch();
    let book = KoboSyncedBook::try_from_library_item(&handbook(), vec![], now).unwrap();
    match entitlement_from(SyncType::New, book.clone()) {
        KoboSyncEntitlement::NewEntitlement(e) => assert_eq!(e.new_entitlement, book),
        other => panic!("{:?}", other),
    }
    match entitlement_from(SyncType::Update, book.clone()) {
        KoboSyncEntitlement::ChangedEntitlement(e) => assert_eq!(e.changed_entitlement, book),
        other => panic!("{:?}", other),
    }
}
