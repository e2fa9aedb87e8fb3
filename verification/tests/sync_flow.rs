use abs_kobo_sync::abs_client::{AbsClient, BookMetadata, LibraryItem, Media};
use abs_kobo_sync::config::Config;
use abs_kobo_sync::kobo_api::models::kobo::KoboSyncEntitlement;
use abs_kobo_sync::kobo_api::models::{SyncResponseDto, SyncedEntitlement};
use abs_kobo_sync::kobo_api::routes::{KoboFullTokenDetails, KoboSyncToken};
use abs_kobo_sync::kobo_api::services::proxy::{StoreReply, StoreResponse};
use abs_kobo_sync::kobo_api::services::sync::{
    merge_entitlements, respond, SyncAction, SyncEvent, SyncRecordUpdate, SyncService, SyncState,
};
use abs_kobo_sync::storage::SyncRecord;
use abs_kobo_sync::time::UtcInstant;

const DEVICE: u128 = 0xd0;
const LIBRARY: u128 = 0x11b;

fn item(id: u128, added_at: i64, updated_at: i64, format: Option<&str>) -> LibraryItem {
    LibraryItem {
        id,
        ino: "1".to_string(),
        old_library_item_id: None,
        library_id: "lib".to_string(),
        folder_id: "fol".to_string(),
        path: "/books/x".to_string(),
        rel_path: "x".to_string(),
        is_file: false,
        mtime_ms: 0,
        ctime_ms: 0,
        birthtime_ms: 0,
        added_at,
        updated_at,
        is_missing: false,
        is_invalid: false,
        media_type: "book".to_string(),
        media: Media {
            id: "m".to_string(),
            metadata: BookMetadata {
                title: Some(format!("Book {}", id)),
                subtitle: None,
                title_ignore_prefix: None,
                author_name: None,
                author_name_lf: None,
                narrator_name: None,
                series_name: None,
                genres: vec![],
                published_year: None,
                published_date: None,
                publisher: None,
                description: None,
                isbn: None,
                asin: None,
                language: None,
                explicit: None,
                abridged: None,
            },
            cover_path: None,
            tags: vec![],
            num_tracks: 0,
            num_audio_files: 0,
            num_chapters: 0,
            size: 0,
            ebook_format: format.map(|f| f.to_string()),
        },
        num_files: 1,
        size: 0,
    }
}


fn config() -> Config {
    Config {
        abs_api_key: "k".to_string(),
        abs_base_url: "http://abs.local".to_string(),
        kepubify_path: "kepubify".to_string(),
        db_connection_string: "sqlite::memory:".to_string(),
        library_id: LIBRARY,
    }
}

fn h(name: &str, value: &str) -> (String, String) {
    (name.to_string(), value.to_string())
}

fn device_headers() -> Vec<(String, String)> {
    vec![
        h("host", "bridge.local"),
        h("x-kobo-synctoken", "what the device sent"),
        h("user-agent", "Kobo Touch"),
    ]
}

fn store_answer(sync: Option<&str>) -> StoreReply<String> {
    let mut headers = vec![h("x-kobo-synctoken", "new.raw"), h("x-kobo-sync-mode", "delta")];
    if let Some(flag) = sync {
        headers.push(h("X-Kobo-Sync", flag));
    }
    StoreReply {
        status: 200,
        headers,
        entitlements: Ok(vec!["store-1".to_string(), "store-2".to_string()]),
    }
}

fn store_response() -> StoreResponse<String> {
    StoreResponse {
        entitlements: vec![],
        sync_token: "new.raw".to_string(),
        sync: None,
        sync_mode: None,
        recent_reads: None,
    }
}

fn forwarded(action: SyncAction<String>, token: &str) {
    match action {
        SyncAction::ForwardToStore { request } => {
            assert_eq!(request.url, "https://storeapi.kobo.com/v1/library/sync");
            assert_eq!(
                request.headers,
                vec![h("user-agent", "Kobo Touch"), h("x-kobo-synctoken", token)]
            );
        }
        other => panic!("{:?}", other),
    }
}

fn message(action: SyncAction<String>) -> (u16, String) {
    match action {
        SyncAction::Respond(response) => {
            let status = response.status();
            assert_eq!(response.entitlement_count(), 0);
            match response {
                SyncResponseDto::Unauthorized(e) => (status, e.message),
                SyncResponseDto::Forbidden(e) => (status, e.message),
                SyncResponseDto::BadGateway(e) => (status, e.message),
                SyncResponseDto::Success { .. } => panic!("the device was not turned away"),
            }
        }
        other => panic!("{:?}", other),
    }
}

#[test]
fn missing_token_is_unauthorized_and_nothing_is_asked() {
    let client = AbsClient::new("http://abs.local");
    let config = config();
    let service = SyncService::new(&client, &config);
    let (state, action) = service.begin::<String>(DEVICE, None, device_headers());
    assert!(matches!(state, SyncState::Done));
    assert_eq!(message(action), (401, "Kobo Sync Token is required".to_string()));
}

#[test]
fn token_without_store_token_is_unauthorized() {
    let client = AbsClient::new("http://abs.local");
    let config = config();
    let service = SyncService::new(&client, &config);
    // base64 of `[1,2]`
    let (state, action) = service.begin::<String>(DEVICE, Some("WzEsMl0="), device_headers());
    assert!(matches!(state, SyncState::Done));
    assert_eq!(message(action), (401, "Kobo Sync Token is required".to_string()));
}

#[test]
fn unreadable_token_is_forbidden() {
    let client = AbsClient::new("http://abs.local");
    let config = config();
    let service = SyncService::new(&client, &config);
    let (state, action) = service.begin::<String>(DEVICE, Some("!!!"), device_headers());
    assert!(matches!(state, SyncState::Done));
    assert_eq!(
        message(action),
        (403, "Invalid Kobo Sync Token: Invalid Kobo sync token format".to_string())
    );
    let (_, action) = service.begin::<String>(DEVICE, Some("bm90IGpzb24="), device_headers());
    assert_eq!(
        message(action),
        (403, "Invalid Kobo Sync Token: Invalid Kobo sync token JSON format".to_string())
    );
}

#[test]
fn store_token_alone_starts_from_the_epoch() {
    let client = AbsClient::new("http://abs.local");
    let config = config();
    let service = SyncService::new(&client, &config);
    let (state, action) = service.begin::<String>(DEVICE, Some("abc.def"), device_headers());
    match state {
        SyncState::AwaitingApiKey { session } => {
            assert_eq!(session.device_id, DEVICE);
            assert_eq!(session.raw_token, "abc.def");
            assert_eq!(session.details, KoboFullTokenDetails::none());
            assert_eq!(session.details.cutoff(), 0);
            assert_eq!(session.headers, device_headers());
        }
        other => panic!("{:?}", other),
    }
    assert!(matches!(action, SyncAction::ResolveApiKey { device_id: DEVICE }));
}

#[test]
fn full_token_brings_its_watermarks() {
    let client = AbsClient::new("http://abs.local");
    let config = config();
    let service = SyncService::new(&client, &config);
    let details = KoboFullTokenDetails {
        books_last_modified: UtcInstant::from_timestamp(40),
        archive_last_modified: UtcInstant::from_timestamp(50),
        ..KoboFullTokenDetails::none()
    };
    let token = KoboSyncToken::encode("the.raw", &details).unwrap();
    let (state, _) = service.begin::<String>(DEVICE, Some(&token), device_headers());
    match state {
        SyncState::AwaitingApiKey { session } => {
            assert_eq!(session.raw_token, "the.raw");
            assert_eq!(session.details, details);
        }
        other => panic!("{:?}", other),
    }
}

#[test]
fn device_without_key_has_nothing_of_ours_but_still_hears_the_store() {
    let client = AbsClient::new("http://abs.local");
    let config = config();
    let service = SyncService::new(&client, &config);
    let now = UtcInstant::epoch();
    let (state, _) = service.begin::<String>(DEVICE, Some("abc.def"), device_headers());
    let (state, action) = service.step::<String>(state, SyncEvent::ApiKey(Ok(None)), now);
    forwarded(action, "abc.def");
    let (state, action) = service.step::<String>(state, SyncEvent::Store(Ok(store_answer(None))), now);
    assert!(matches!(state, SyncState::Done));
    match action {
        SyncAction::Respond(SyncResponseDto::Success { entitlements, sync, .. }) => {
            assert_eq!(entitlements.len(), 2);
            assert!(matches!(entitlements[0], SyncedEntitlement::Store(_)));
            assert_eq!(sync, None);
        }
        other => panic!("{:?}", other),
    }
}

#[test]
fn a_whole_sync() {
    let client = AbsClient::new("http://abs.local");
    let config = config();
    let service = SyncService::new(&client, &config);
    let now = UtcInstant::from_timestamp(1714566600).unwrap();
    let details = KoboFullTokenDetails {
        books_last_modified: UtcInstant::from_timestamp(40),
        archive_last_modified: UtcInstant::from_timestamp(50),
        tags_last_modified: UtcInstant::from_timestamp(60),
        ..KoboFullTokenDetails::none()
    };
    let token = KoboSyncToken::encode("the.raw", &details).unwrap();

    let (state, action) = service.begin::<String>(DEVICE, Some(&token), device_headers());
    assert!(matches!(action, SyncAction::ResolveApiKey { device_id: DEVICE }));

    let (state, action) = service.step::<String>(state, SyncEvent::ApiKey(Ok(Some("user-key".to_string()))), now);
    match action {
        SyncAction::FetchItems { library_id, api_key } => {
            assert_eq!(library_id, LIBRARY);
            assert_eq!(api_key, "user-key");
        }
        other => panic!("{:?}", other),
    }

    let items = vec![
        item(1, 10, 30, Some("epub")),  // not after the watermark
        item(2, 45, 45, Some("epub")),  // new
        item(3, 10, 70, Some("epub")),  // updated since it was synced
        item(4, 10, 80, Some("epub")),  // synced at its present version
        item(5, 90, 90, Some("pdf")),   // no supported ebook
        item(6, 95, i64::MAX, Some("epub")), // cannot be told
    ];
    let (state, action) = service.step::<String>(state, SyncEvent::Items(Ok(items)), now);
    assert!(matches!(action, SyncAction::LoadRecords { device_id: DEVICE }));

    let records = vec![
        SyncRecord { id: 1, device_id: DEVICE, remote_item_id: 3, synced_at: 60 },
        SyncRecord { id: 2, device_id: DEVICE, remote_item_id: 4, synced_at: 80 },
        SyncRecord { id: 3, device_id: 0xd1, remote_item_id: 2, synced_at: 45 },
    ];
    let (state, action) = service.step::<String>(state, SyncEvent::Records(Ok(records)), now);
    match action {
        SyncAction::ReplaceRecords { records, skipped } => {
            assert_eq!(
                records,
                vec![
                    SyncRecordUpdate { device_id: DEVICE, remote_item_id: 2, synced_at: 45 },
                    SyncRecordUpdate { device_id: DEVICE, remote_item_id: 3, synced_at: 70 },
                ]
            );
            assert_eq!(skipped, vec![6]);
        }
        other => panic!("{:?}", other),
    }
    match &state {
        SyncState::AwaitingPersist { entitlements, eligible, .. } => {
            assert_eq!(entitlements.len(), 2);
            assert_eq!(*eligible, 3);
        }
        other => panic!("{:?}", other),
    }

    let (state, action) = service.step::<String>(state, SyncEvent::Persisted, now);
    forwarded(action, "the.raw");

    let (state, action) =
        service.step::<String>(state, SyncEvent::Store(Ok(store_answer(Some("done")))), now);
    assert!(matches!(state, SyncState::Done));
    match action {
        SyncAction::Respond(response) => {
            assert_eq!(response.status(), 200);
            assert_eq!(response.entitlement_count(), 4);
            match response {
                SyncResponseDto::Success {
                    entitlements,
                    sync_token,
                    sync,
                    sync_mode,
                    recent_reads,
                } => {
                    match &entitlements[0] {
                        SyncedEntitlement::Local(KoboSyncEntitlement::NewEntitlement(e)) => {
                            assert_eq!(e.new_entitlement.book_entitlement.id, 2)
                        }
                        other => panic!("{:?}", other),
                    }
                    match &entitlements[1] {
                        SyncedEntitlement::Local(KoboSyncEntitlement::ChangedEntitlement(e)) => {
                            assert_eq!(e.changed_entitlement.book_entitlement.id, 3)
                        }
                        other => panic!("{:?}", other),
                    }
                    assert!(matches!(&entitlements[2], SyncedEntitlement::Store(s) if s == "store-1"));
                    assert!(matches!(&entitlements[3], SyncedEntitlement::Store(s) if s == "store-2"));
                    assert_eq!(sync.as_deref(), Some("done"));
                    assert_eq!(sync_mode.as_deref(), Some("delta"));
                    assert_eq!(recent_reads, None);
                    // The token for the device: the store's new token and the
                    // watermarks it came with, less that of the archive.
                    match KoboSyncToken::from_request(&sync_token).unwrap() {
                        KoboSyncToken::FullToken { raw_kobo_store_token, details: back } => {
                            assert_eq!(raw_kobo_store_token, "new.raw");
                            assert_eq!(
                                back,
                                KoboFullTokenDetails { archive_last_modified: None, ..details }
                            );
                        }
                        other => panic!("{:?}", other),
                    }
                }
                other => panic!("{:?}", other),
            }
        }
        other => panic!("{:?}", other),
    }
}

#[test]
fn more_eligible_items_than_the_limit_force_continue() {
    let client = AbsClient::new("http://abs.local");
    let config = config();
    let service = SyncService::new(&client, &config);
    let now = UtcInstant::epoch();
    for (count, store_flag, want, sent) in [
        (101usize, None, Some("continue"), 100usize),
        (101, Some("done"), Some("continue"), 100),
        (100, None, None, 100),
        (100, Some("done"), Some("done"), 100),
        (250, None, Some("continue"), 100),
        (3, Some("continue"), Some("continue"), 3),
    ] {
        let items: Vec<LibraryItem> =
            (0..count as u128).map(|n| item(n, 1, 1, Some("epub"))).collect();
        let (state, _) = service.begin::<String>(DEVICE, Some("abc.def"), device_headers());
        let (state, _) = service.step::<String>(state, SyncEvent::ApiKey(Ok(Some("key".to_string()))), now);
        let (state, _) = service.step::<String>(state, SyncEvent::Items(Ok(items)), now);
        let (state, action) = service.step::<String>(state, SyncEvent::Records(Ok(vec![])), now);
        match action {
            SyncAction::ReplaceRecords { records, .. } => assert_eq!(records.len(), sent),
            other => panic!("{:?}", other),
        }
        let (state, _) = service.step::<String>(state, SyncEvent::Persisted, now);
        let (_, action) =
            service.step::<String>(state, SyncEvent::Store(Ok(store_answer(store_flag))), now);
        match action {
            SyncAction::Respond(SyncResponseDto::Success { entitlements, sync, .. }) => {
                assert_eq!(sync.as_deref(), want, "{} eligible", count);
                assert_eq!(entitlements.len(), sent + 2);
            }
            other => panic!("{:?}", other),
        }
    }
}

#[test]
fn failures_outside_are_bad_gateways() {
    let client = AbsClient::new("http://abs.local");
    let config = config();
    let service = SyncService::new(&client, &config);
    let now = UtcInstant::epoch();

    let (state, _) = service.begin::<String>(DEVICE, Some("abc.def"), device_headers());
    let (state, _) = service.step::<String>(state, SyncEvent::ApiKey(Ok(Some("key".to_string()))), now);
    let (state, action) = service.step::<String>(state, SyncEvent::Items(Err("timed out".to_string())), now);
    assert!(matches!(state, SyncState::Done));
    assert_eq!(message(action), (502, "Failed to collect books for sync: timed out".to_string()));

    let (state, _) = service.begin::<String>(DEVICE, Some("abc.def"), device_headers());
    let (state, _) = service.step::<String>(state, SyncEvent::ApiKey(Ok(Some("key".to_string()))), now);
    let (state, _) = service.step::<String>(state, SyncEvent::Items(Ok(vec![])), now);
    let (state, action) = service.step::<String>(state, SyncEvent::Records(Err("db gone".to_string())), now);
    assert!(matches!(state, SyncState::Done));
    assert_eq!(message(action), (502, "Failed to collect books for sync: db gone".to_string()));

    let (state, _) = service.begin::<String>(DEVICE, Some("abc.def"), device_headers());
    let (state, action) =
        service.step::<String>(state, SyncEvent::ApiKey(Err("no db".to_string())), now);
    assert!(matches!(state, SyncState::Done));
    assert_eq!(message(action), (502, "Failed to collect books for sync: no db".to_string()));

    let (state, _) = service.begin::<String>(DEVICE, Some("abc.def"), device_headers());
    let (state, _) = service.step::<String>(state, SyncEvent::ApiKey(Ok(None)), now);
    let (state, action) = service.step::<String>(state, SyncEvent::Store(Err("refused".to_string())), now);
    assert!(matches!(state, SyncState::Done));
    assert_eq!(message(action), (502, "Failed to send sync request: refused".to_string()));

    for (status, body, want) in [
        (503u16, Ok(vec![]), "Failed to send sync request: store answered with status 503"),
        (199, Ok(vec![]), "Failed to send sync request: store answered with status 199"),
        (300, Ok(vec![]), "Failed to send sync request: store answered with status 300"),
        (200, Err("EOF".to_string()), "Failed to parse response JSON: EOF"),
        (404, Err("EOF".to_string()), "Failed to send sync request: store answered with status 404"),
    ] {
        let (state, _) = service.begin::<String>(DEVICE, Some("abc.def"), device_headers());
        let (state, _) = service.step::<String>(state, SyncEvent::ApiKey(Ok(None)), now);
        let reply = StoreReply { status, headers: vec![], entitlements: body };
        let (state, action) = service.step::<String>(state, SyncEvent::Store(Ok(reply)), now);
        assert!(matches!(state, SyncState::Done));
        assert_eq!(message(action), (502, want.to_string()));
    }
}

#[test]
fn an_event_out_of_step_ends_the_sync() {
    let client = AbsClient::new("http://abs.local");
    let config = config();
    let service = SyncService::new(&client, &config);
    let now = UtcInstant::epoch();
    let (state, action) = service.step::<String>(SyncState::Done, SyncEvent::Persisted, now);
    assert!(matches!(state, SyncState::Done));
    assert_eq!(message(action), (502, "Sync session is out of step".to_string()));
    let (state, _) = service.begin::<String>(DEVICE, Some("abc.def"), device_headers());
    let (state, action) = service.step::<String>(state, SyncEvent::Items(Ok(vec![])), now);
    assert!(matches!(state, SyncState::Done));
    assert_eq!(message(action), (502, "Sync session is out of step".to_string()));
}

#[test]
fn respond_falls_back_to_the_stores_token() {
    let response = respond::<String>(vec![], 0, store_response(), None);
    match response {
        SyncResponseDto::Success { sync_token, .. } => assert_eq!(sync_token, "new.raw"),
        other => panic!("{:?}", other),
    }
    let response = respond::<String>(vec![], 0, store_response(), Some("made".to_string()));
    match response {
        SyncResponseDto::Success { sync_token, .. } => assert_eq!(sync_token, "made"),
        other => panic!("{:?}", other),
    }
}

#[test]
fn merge_puts_ours_first() {
    let merged = merge_entitlements::<u8>(vec![], vec![7, 8]);
    assert_eq!(merged.len(), 2);
    assert!(matches!(merged[0], SyncedEntitlement::Store(7)));
    assert!(matches!(merged[1], SyncedEntitlement::Store(8)));
}

#[test]
fn collect_books_to_sync_uses_the_books_watermark() {
    let client = AbsClient::new("http://abs.local");
    let config = config();
    let service = SyncService::new(&client, &config);
    let items = vec![item(1, 10, 30, Some("epub")), item(2, 45, 45, Some("epub"))];
    let all = service.collect_books_to_sync(DEVICE, &None, &items, &vec![]);
    assert_eq!(all.len(), 2);
    let some =
        service.collect_books_to_sync(DEVICE, &UtcInstant::from_timestamp(40), &items, &vec![]);
    assert_eq!(some.len(), 1);
    assert_eq!(some[0].1.id, 2);
}
