//! The sync of a device with the library: which items have changed since the
//! device was last told, what the device is told of them, and how that is put
//! together with what the store has to say.

use std::collections::HashMap;
use vstd::prelude::*;
use vstd::string::*;
use crate::abs_client::{AbsClient, LibraryItem};
use crate::config::Config;
use crate::ident::{hyphenated, uuid_random, uuid_to_string};
use crate::json::{
    json_clone, json_get, json_integer, json_model, json_null, json_set, json_string, member, Json,
};
use crate::kobo_api::models::kobo::{
    book_of, has_valid_times, ChangedEntitlement, KoboSyncEntitlement, KoboSyncedBook,
    NewEntitlement, SyncEntitlementView,
};
use crate::kobo_api::models::{
    BookFormatDto, DeviceAuthResponseDto, EmptyOkResponseDto, ErrorDto,
    InitializationResponseDto, NoContentResponseDto, SyncResponseDto,
    SyncedEntitlement, TagCreateRequestDto, TagCreateResponseDto, TagItemDto,
};
use crate::kobo_api::services::proxy::{
    is_response_of, reply_error, store_answer, store_headers, store_request, StoreReply,
    StoreRequest, StoreResponse,
};
use crate::kobo_api::routes::{
    decoded_header, header_text, is_encoding_of, KoboFullTokenDetails, KoboSyncToken,
    SyncTokenView,
};
use crate::storage::{replaced, without_pair, SyncRecord};
use crate::text::{glue, is_blank, trimmed};
use crate::time::UtcInstant;

verus! {

/// The most entitlements of our own that one answer carries. Items beyond
/// it stay eligible and come with a later answer.
pub const SYNC_ITEM_LIMIT: usize = 100;

/// How an item has changed for a device.
#[derive(Debug, Clone, Copy, PartialEq, Eq, Structural)]
pub enum SyncType {
    /// The device has not been told of the item.
    New,
    /// The item was updated after the device was told of it.
    Update,
}

/// What is to be remembered of a delivery: that `device_id` now has the
/// version of `remote_item_id` that was last updated at `synced_at`.
#[derive(Debug, Clone, Copy, PartialEq, Eq, Structural)]
pub struct SyncRecordUpdate {
    pub device_id: u128,
    pub remote_item_id: u128,
    pub synced_at: i64,
}

/// Whether `item` can be handed to a device: it has an ebook in a form that
/// has a name among `BookFormatDto`.
pub open spec fn is_supported(item: LibraryItem) -> bool {
    item.media.ebook_format matches Some(format) && BookFormatDto::spec_from_name(format@) is Some
}

/// What `records` say of `device_id`: for each item that it has a record for,
/// the version it was told of. Of two records for one item the later counts.
pub open spec fn synced_index(records: Seq<SyncRecord>, device_id: u128) -> Map<u128, i64>
    decreases records.len(),
{
    if records.len() == 0 {
        Map::empty()
    } else {
        let before = synced_index(records.drop_last(), device_id);
        if records.last().device_id == device_id {
            before.insert(records.last().remote_item_id, records.last().synced_at)
        } else {
            before
        }
    }
}

/// Whether `item` was added or updated after `cutoff`.
pub open spec fn is_candidate(item: LibraryItem, cutoff: int) -> bool {
    item.added_at > cutoff || item.updated_at > cutoff
}

/// Whether the device already has the present version of `item`.
pub open spec fn is_current(item: LibraryItem, synced: Map<u128, i64>) -> bool {
    synced.contains_key(item.id) && synced[item.id] >= item.updated_at
}

/// How `item` has changed for a device with the watermark `cutoff` and the
/// records `synced`; `None` where the device is not to be told of it.
pub open spec fn classify(item: LibraryItem, cutoff: int, synced: Map<u128, i64>) -> Option<
    SyncType,
> {
    if !is_supported(item) || !is_candidate(item, cutoff) || is_current(item, synced) {
        None
    } else if synced.contains_key(item.id) {
        Some(SyncType::Update)
    } else {
        Some(SyncType::New)
    }
}

/// The changes among `items`, in the order of `items`.
pub open spec fn changes_of(items: Seq<LibraryItem>, cutoff: int, synced: Map<u128, i64>) -> Seq<
    (SyncType, LibraryItem),
>
    decreases items.len(),
{
    if items.len() == 0 {
        Seq::empty()
    } else {
        let before = changes_of(items.drop_last(), cutoff, synced);
        match classify(items.last(), cutoff, synced) {
            Some(kind) => before.push((kind, items.last())),
            None => before,
        }
    }
}

/// The values of changes that refer to their items.
pub open spec fn change_values(changes: Seq<(SyncType, &LibraryItem)>) -> Seq<
    (SyncType, LibraryItem),
> {
    changes.map_values(|c: (SyncType, &LibraryItem)| (c.0, *c.1))
}

/// The changes that go into one answer: the first `SYNC_ITEM_LIMIT`.
pub open spec fn capped(changes: Seq<(SyncType, LibraryItem)>) -> Seq<(SyncType, LibraryItem)> {
    if changes.len() > SYNC_ITEM_LIMIT {
        changes.take(SYNC_ITEM_LIMIT as int)
    } else {
        changes
    }
}

/// The changes whose items can be told to a device: those with times that
/// can be represented.
pub open spec fn deliverable(changes: Seq<(SyncType, LibraryItem)>) -> Seq<(SyncType, LibraryItem)>
    decreases changes.len(),
{
    if changes.len() == 0 {
        Seq::empty()
    } else {
        let before = deliverable(changes.drop_last());
        if has_valid_times(changes.last().1) {
            before.push(changes.last())
        } else {
            before
        }
    }
}

/// The items of the changes that cannot be told to a device, in order.
pub open spec fn undeliverable(changes: Seq<(SyncType, LibraryItem)>) -> Seq<u128>
    decreases changes.len(),
{
    if changes.len() == 0 {
        Seq::empty()
    } else {
        let before = undeliverable(changes.drop_last());
        if has_valid_times(changes.last().1) {
            before
        } else {
            before.push(changes.last().1.id)
        }
    }
}

/// Where a device fetches `item_id` from.
pub open spec fn download_url(item_id: u128) -> Seq<char> {
    "https://example.com/download/"@ + hyphenated(item_id)
}

/// The entitlement that tells a device of a change: a new entitlement for a
/// new item, a changed entitlement for an updated one.
pub open spec fn entitlement_for(
    change: (SyncType, LibraryItem),
    now: UtcInstant,
) -> SyncEntitlementView {
    let book = book_of(change.1, seq![download_url(change.1.id)], now);
    match change.0 {
        SyncType::New => SyncEntitlementView::NewEntitlement(book),
        SyncType::Update => SyncEntitlementView::ChangedEntitlement(book),
    }
}

/// What is remembered once a device has been told of a change.
pub open spec fn record_for(device_id: u128, change: (SyncType, LibraryItem)) -> SyncRecordUpdate {
    SyncRecordUpdate {
        device_id,
        remote_item_id: change.1.id,
        synced_at: change.1.updated_at,
    }
}

/// The values of entitlements.
pub open spec fn entitlement_views(entitlements: Seq<KoboSyncEntitlement>) -> Seq<
    SyncEntitlementView,
> {
    entitlements.map_values(|e: KoboSyncEntitlement| e@)
}

/// The entitlements that one answer carries for `changes`.
pub open spec fn planned_entitlements(
    changes: Seq<(SyncType, LibraryItem)>,
    now: UtcInstant,
) -> Seq<SyncEntitlementView> {
    deliverable(capped(changes)).map_values(
        |c: (SyncType, LibraryItem)| entitlement_for(c, now),
    )
}

/// The records that go with the entitlements of one answer.
pub open spec fn planned_records(device_id: u128, changes: Seq<(SyncType, LibraryItem)>) -> Seq<
    SyncRecordUpdate,
> {
    deliverable(capped(changes)).map_values(|c: (SyncType, LibraryItem)| record_for(device_id, c))
}

/// The items that one answer passes over because they cannot be told to a
/// device.
pub open spec fn planned_skips(changes: Seq<(SyncType, LibraryItem)>) -> Seq<u128> {
    undeliverable(capped(changes))
}

/// The records of `device_id`, by item.
pub fn index_records(records: &Vec<SyncRecord>, device_id: u128) -> (index: HashMap<u128, i64>)
    ensures
        index@ == synced_index(records@, device_id),
{
    let mut index: HashMap<u128, i64> = HashMap::new();
    let mut i: usize = 0;
    while i < records.len()
        invariant
            i <= records@.len(),
            index@ == synced_index(records@.take(i as int), device_id),
        decreases records.len() - i,
    {
        let row = records[i];
        proof {
            let upto = records@.take(i + 1);
            assert(upto.last() == row);
            assert(upto.drop_last() =~= records@.take(i as int));
        }
        if row.device_id == device_id {
            index.insert(row.remote_item_id, row.synced_at);
        }
        i = i + 1;
    }
    assert(records@.take(records@.len() as int) =~= records@);
    index
}

/// Whether `item` has an ebook in a form that can be handed to a device.
pub fn item_is_supported(item: &LibraryItem) -> (r: bool)
    ensures
        r == is_supported(*item),
{
    match &item.media.ebook_format {
        Some(format) => BookFormatDto::from_name(format.as_str()).is_some(),
        None => false,
    }
}

/// How `item` has changed for a device; `None` where the device is not to be
/// told of it. An item without a supported ebook never counts. Otherwise it
/// counts if it was added or updated after `cutoff`, unless the device has a
/// record of its present version; it is new where the device has no record
/// of it at all.
pub fn classify_item(item: &LibraryItem, cutoff: i64, synced: &HashMap<u128, i64>) -> (r: Option<
    SyncType,
>)
    ensures
        r == classify(*item, cutoff as int, synced@),
{
    if !item_is_supported(item) {
        return None;
    }
    if !(item.added_at > cutoff || item.updated_at > cutoff) {
        return None;
    }
    match synced.get(&item.id) {
        Some(synced_at) => {
            if *synced_at >= item.updated_at {
                None
            } else {
                Some(SyncType::Update)
            }
        },
        None => Some(SyncType::New),
    }
}

/// The changes among `items` for a device with the watermark `cutoff` and
/// the records `synced`, in the order of `items`.
pub fn detect_changes<'a>(
    cutoff: i64,
    items: &'a Vec<LibraryItem>,
    synced: &HashMap<u128, i64>,
) -> (changes: Vec<(SyncType, &'a LibraryItem)>)
    ensures
        change_values(changes@) == changes_of(items@, cutoff as int, synced@),
{
    let mut changes: Vec<(SyncType, &'a LibraryItem)> = Vec::new();
    let mut i: usize = 0;
    while i < items.len()
        invariant
            i <= items@.len(),
            change_values(changes@) == changes_of(items@.take(i as int), cutoff as int, synced@),
        decreases items.len() - i,
    {
        let item = &items[i];
        proof {
            let upto = items@.take(i + 1);
            assert(upto.last() == *item);
            assert(upto.drop_last() =~= items@.take(i as int));
        }
        match classify_item(item, cutoff, synced) {
            Some(kind) => {
                let ghost before = changes@;
                changes.push((kind, item));
                assert(change_values(changes@) =~= change_values(before).push((kind, *item)));
            },
            None => {},
        }
        i = i + 1;
    }
    assert(items@.take(items@.len() as int) =~= items@);
    changes
}

/// The entitlement that tells of `book`: new for a new item, changed for an
/// updated one.
pub fn entitlement_from(sync_type: SyncType, book: KoboSyncedBook) -> (r: KoboSyncEntitlement)
    ensures
        r@ == match sync_type {
            SyncType::New => SyncEntitlementView::NewEntitlement(book@),
            SyncType::Update => SyncEntitlementView::ChangedEntitlement(book@),
        },
        r is NewEntitlement <==> sync_type == SyncType::New,
{
    match sync_type {
        SyncType::New => KoboSyncEntitlement::NewEntitlement(
            NewEntitlement { new_entitlement: book },
        ),
        SyncType::Update => KoboSyncEntitlement::ChangedEntitlement(
            ChangedEntitlement { changed_entitlement: book },
        ),
    }
}

/// Where a device fetches the item `library_item_id` from.
pub fn download_url_for(library_item_id: u128) -> (r: String)
    ensures
        r@ == download_url(library_item_id),
{
    let id = uuid_to_string(library_item_id);
    glue("https://example.com/download/", id.as_str())
}

/// What one answer carries for `changes`, what is to be remembered of it,
/// and which items were passed over. No more than `SYNC_ITEM_LIMIT` changes
/// are taken, from the front; a change whose item cannot be told to a device
/// is passed over, and nothing is remembered of it.
pub fn plan_delivery(
    device_id: u128,
    changes: &Vec<(SyncType, &LibraryItem)>,
    now: UtcInstant,
) -> (r: (Vec<KoboSyncEntitlement>, Vec<SyncRecordUpdate>, Vec<u128>))
    ensures
        entitlement_views(r.0@) == planned_entitlements(change_values(changes@), now),
        r.1@ == planned_records(device_id, change_values(changes@)),
        r.2@ == planned_skips(change_values(changes@)),
        r.0@.len() == r.1@.len(),
        r.0@.len() <= SYNC_ITEM_LIMIT,
{
    let ghost all = change_values(changes@);
    let take: usize = if changes.len() > SYNC_ITEM_LIMIT {
        SYNC_ITEM_LIMIT
    } else {
        changes.len()
    };
    let ghost taken = capped(all);
    assert(taken =~= all.take(take as int));
    let mut entitlements: Vec<KoboSyncEntitlement> = Vec::new();
    let mut records: Vec<SyncRecordUpdate> = Vec::new();
    let mut skipped: Vec<u128> = Vec::new();
    let mut i: usize = 0;
    while i < take
        invariant
            i <= take <= changes@.len(),
            all == change_values(changes@),
            taken == all.take(take as int),
            entitlements@.len() == records@.len() <= i,
            entitlement_views(entitlements@) == deliverable(taken.take(i as int)).map_values(
                |c: (SyncType, LibraryItem)| entitlement_for(c, now),
            ),
            records@ == deliverable(taken.take(i as int)).map_values(
                |c: (SyncType, LibraryItem)| record_for(device_id, c),
            ),
            skipped@ == undeliverable(taken.take(i as int)),
        decreases take - i,
    {
        let (kind, item) = changes[i];
        proof {
            let upto = taken.take(i + 1);
            assert(upto.last() == (kind, *item));
            assert(upto.drop_last() =~= taken.take(i as int));
        }
        let mut urls: Vec<String> = Vec::new();
        urls.push(download_url_for(item.id));
        assert(urls.deep_view() =~= seq![download_url(item.id)]);
        match KoboSyncedBook::try_from_library_item(item, urls, now) {
            Ok(book) => {
                let ghost before_e = entitlements@;
                let ghost before_r = records@;
                let ghost d = deliverable(taken.take(i as int));
                let entitlement = entitlement_from(kind, book);
                entitlements.push(entitlement);
                records.push(
                    SyncRecordUpdate {
                        device_id,
                        remote_item_id: item.id,
                        synced_at: item.updated_at,
                    },
                );
                proof {
                    let c = (kind, *item);
                    assert(entitlement@ == entitlement_for(c, now));
                    assert(entitlement_views(entitlements@) =~= entitlement_views(before_e).push(
                        entitlement@,
                    ));
                    assert(d.push(c).map_values(
                        |c: (SyncType, LibraryItem)| entitlement_for(c, now),
                    ) =~= d.map_values(|c: (SyncType, LibraryItem)| entitlement_for(c, now)).push(
                        entitlement_for(c, now),
                    ));
                    assert(d.push(c).map_values(
                        |c: (SyncType, LibraryItem)| record_for(device_id, c),
                    ) =~= d.map_values(|c: (SyncType, LibraryItem)| record_for(device_id, c)).push(
                        record_for(device_id, c),
                    ));
                }
            },
            Err(_) => {
                skipped.push(item.id);
            },
        }
        i = i + 1;
    }
    assert(taken.take(take as int) =~= taken);
    (entitlements, records, skipped)
}

/// A sync that has been let in: the device, the store's token that it
/// brought, its watermarks, and the headers of its request.
#[derive(Debug)]
pub struct SyncSession {
    pub device_id: u128,
    pub raw_token: String,
    pub details: KoboFullTokenDetails,
    pub headers: Vec<(String, String)>,
}

/// What a sync waits for.
#[derive(Debug)]
pub enum SyncState {
    /// The key that opens the library server for the owner of the device.
    AwaitingApiKey { session: SyncSession },
    /// The items of the library.
    AwaitingItems { session: SyncSession },
    /// The records of what the device was told before.
    AwaitingRecords { session: SyncSession, items: Vec<LibraryItem> },
    /// Word that the records of this delivery were put in place.
    AwaitingPersist {
        session: SyncSession,
        entitlements: Vec<KoboSyncEntitlement>,
        eligible: usize,
    },
    /// The answer of the store.
    AwaitingStore { session: SyncSession, entitlements: Vec<KoboSyncEntitlement>, eligible: usize },
    /// Nothing: the device has its answer.
    Done,
}

/// What happened outside since the last step of a sync.
#[derive(Debug)]
pub enum SyncEvent<U> {
    /// The key was looked up, or could not be; the owner of the device may
    /// have none.
    ApiKey(Result<Option<String>, String>),
    /// The library server listed its items, or failed.
    Items(Result<Vec<LibraryItem>, String>),
    /// The records of the device were read, or could not be.
    Records(Result<Vec<SyncRecord>, String>),
    /// The records were put in place, as far as that went.
    Persisted,
    /// The store replied, or could not be reached.
    Store(Result<StoreReply<U>, String>),
}

/// What is to be done outside before the next step of a sync.
#[derive(Debug)]
pub enum SyncAction<U> {
    /// Look up the key of the owner of the device.
    ResolveApiKey { device_id: u128 },
    /// List the items of the library.
    FetchItems { library_id: u128, api_key: String },
    /// Read the records of the device.
    LoadRecords { device_id: u128 },
    /// Put each record in the place of what the device had for the item, each
    /// in one step. A record that cannot be written is passed over. `skipped`
    /// names the items that could not be told to the device, for the log.
    ReplaceRecords { records: Vec<SyncRecordUpdate>, skipped: Vec<u128> },
    /// Put the sync request of the device to the store.
    ForwardToStore { request: StoreRequest },
    /// Answer the device.
    Respond(SyncResponseDto<U>),
}

/// The watermarks that go back to a device: those it came with, but for the
/// archive, which is not kept.
pub open spec fn outgoing(details: KoboFullTokenDetails) -> KoboFullTokenDetails {
    KoboFullTokenDetails {
        books_last_modified: details.books_last_modified,
        books_last_created: details.books_last_created,
        archive_last_modified: None,
        reading_state_last_modified: details.reading_state_last_modified,
        tags_last_modified: details.tags_last_modified,
    }
}

/// Our entitlements, then the store's.
pub open spec fn merged<U>(local: Seq<KoboSyncEntitlement>, store: Seq<U>) -> Seq<
    SyncedEntitlement<U>,
> {
    local.map_values(|e: KoboSyncEntitlement| SyncedEntitlement::Local(e)) + store.map_values(
        |u: U| SyncedEntitlement::Store(u),
    )
}

/// Whether the store is to be asked again: what it says itself, unless more
/// items were eligible than one answer carries, in which case the device is
/// told to continue.
pub open spec fn continue_flag(eligible: usize, store_flag: Option<Seq<char>>) -> Option<
    Seq<char>,
> {
    if eligible > SYNC_ITEM_LIMIT {
        Some("continue"@)
    } else {
        store_flag
    }
}

/// Whether `response` is the answer to a sync with our entitlements `local`,
/// of `eligible` eligible items, and the answer `store` of the store, where
/// `encoded` is the token that was made for the device, if one could be.
pub open spec fn answers<U>(
    local: Seq<KoboSyncEntitlement>,
    eligible: usize,
    store: StoreResponse<U>,
    encoded: Option<Seq<char>>,
    response: SyncResponseDto<U>,
) -> bool {
    &&& response matches SyncResponseDto::Success {
        entitlements,
        sync_token,
        sync,
        sync_mode,
        recent_reads,
    }
    &&& entitlements@ == merged(local, store.entitlements@)
    &&& sync_token@ == match encoded {
        Some(token) => token,
        None => store.sync_token@,
    }
    &&& sync.deep_view() == continue_flag(eligible, store.sync.deep_view())
    &&& sync_mode == store.sync_mode
    &&& recent_reads == store.recent_reads
}

/// Whether `action` turns the device away with `status` and `message`.
pub open spec fn refuses<U>(action: SyncAction<U>, status: u16, message: Seq<char>) -> bool {
    &&& action matches SyncAction::Respond(response)
    &&& response.spec_status() == status
    &&& match response {
        SyncResponseDto::Unauthorized(e) => e.message@ == message,
        SyncResponseDto::Forbidden(e) => e.message@ == message,
        SyncResponseDto::BadGateway(e) => e.message@ == message,
        SyncResponseDto::Success { .. } => false,
    }
}

/// How a sync begins. A token that cannot be read is turned away with 403, a
/// request without a token with 401; in both cases nothing is asked outside.
/// Otherwise the first thing is to look up the key for the device. A token of
/// the store alone means that nothing was synced before.
pub open spec fn begins<U>(
    device_id: u128,
    header: Option<Seq<char>>,
    headers: Vec<(String, String)>,
    state: SyncState,
    action: SyncAction<U>,
) -> bool {
    match decoded_header(header) {
        Err(e) => state is Done && refuses(
            action,
            403,
            "Invalid Kobo Sync Token: "@ + e.spec_message(),
        ),
        Ok(SyncTokenView::NoToken) => state is Done && refuses(
            action,
            401,
            "Kobo Sync Token is required"@,
        ),
        Ok(SyncTokenView::OnlyRawToken { raw_kobo_store_token }) => {
            &&& state matches SyncState::AwaitingApiKey { session }
            &&& session.device_id == device_id
            &&& session.raw_token@ == raw_kobo_store_token
            &&& session.details == KoboFullTokenDetails::spec_none()
            &&& session.headers == headers
            &&& action == SyncAction::<U>::ResolveApiKey { device_id }
        },
        Ok(SyncTokenView::FullToken { raw_kobo_store_token, details }) => {
            &&& state matches SyncState::AwaitingApiKey { session }
            &&& session.device_id == device_id
            &&& session.raw_token@ == raw_kobo_store_token
            &&& session.details == details
            &&& session.headers == headers
            &&& action == SyncAction::<U>::ResolveApiKey { device_id }
        },
    }
}

/// Whether the sync goes on to ask the store, with `entitlements` of our own
/// and `eligible` eligible items: the request of the device is passed on
/// with the store's own token in the place of the token that the device sent.
pub open spec fn forwards<U>(
    session: SyncSession,
    entitlements: Vec<KoboSyncEntitlement>,
    eligible: usize,
    next: SyncState,
    action: SyncAction<U>,
) -> bool {
    &&& next == SyncState::AwaitingStore { session, entitlements, eligible }
    &&& action matches SyncAction::ForwardToStore { request }
    &&& request.url@ == "https://storeapi.kobo.com"@ + "/v1/library/sync"@
    &&& request.headers.deep_view() == store_headers(session.headers@, session.raw_token@)
}

/// How a sync goes on from `state` when `event` has happened at the time
/// `now`, for the library `library_id`: `next` is what it waits for then, and
/// `action` what is to be done.
pub open spec fn steps<U>(
    library_id: u128,
    state: SyncState,
    event: SyncEvent<U>,
    now: UtcInstant,
    next: SyncState,
    action: SyncAction<U>,
) -> bool {
    match (state, event) {
        (SyncState::AwaitingApiKey { session }, SyncEvent::ApiKey(Err(e))) => next is Done
            && refuses(action, 502, "Failed to collect books for sync: "@ + e@),
        // Without a key there is nothing of ours to tell: the store is asked
        // at once.
        (SyncState::AwaitingApiKey { session }, SyncEvent::ApiKey(Ok(None))) => exists|
            entitlements: Vec<KoboSyncEntitlement>,
        |
            #![trigger entitlements@]
            entitlements@.len() == 0 && forwards(session, entitlements, 0, next, action),
        (SyncState::AwaitingApiKey { session }, SyncEvent::ApiKey(Ok(Some(api_key)))) => {
            &&& next == SyncState::AwaitingItems { session }
            &&& action == SyncAction::<U>::FetchItems { library_id, api_key }
        },
        (SyncState::AwaitingItems { session }, SyncEvent::Items(Err(e))) => next is Done && refuses(
            action,
            502,
            "Failed to collect books for sync: "@ + e@,
        ),
        (SyncState::AwaitingItems { session }, SyncEvent::Items(Ok(items))) => {
            &&& next == SyncState::AwaitingRecords { session, items }
            &&& action == SyncAction::<U>::LoadRecords { device_id: session.device_id }
        },
        (SyncState::AwaitingRecords { session, items }, SyncEvent::Records(Err(e))) => next is Done
            && refuses(action, 502, "Failed to collect books for sync: "@ + e@),
        (SyncState::AwaitingRecords { session, items }, SyncEvent::Records(Ok(records))) => {
            let changes = changes_of(
                items@,
                session.details.spec_cutoff(),
                synced_index(records@, session.device_id),
            );
            &&& next matches SyncState::AwaitingPersist { session: s, entitlements, eligible }
            &&& s == session
            &&& eligible == changes.len()
            &&& entitlement_views(entitlements@) == planned_entitlements(changes, now)
            &&& action matches SyncAction::ReplaceRecords { records: updates, skipped }
            &&& updates@ == planned_records(session.device_id, changes)
            &&& skipped@ == planned_skips(changes)
        },
        (
            SyncState::AwaitingPersist { session, entitlements, eligible },
            SyncEvent::Persisted,
        ) => forwards(session, entitlements, eligible, next, action),
        (
            SyncState::AwaitingStore { session, entitlements, eligible },
            SyncEvent::Store(Err(e)),
        ) => next is Done && refuses(action, 502, "Failed to send sync request: "@ + e@),
        (
            SyncState::AwaitingStore { session, entitlements, eligible },
            SyncEvent::Store(Ok(reply)),
        ) => match reply_error(reply) {
            Some(message) => next is Done && refuses(action, 502, message),
            None => {
                &&& next is Done
                &&& action matches SyncAction::Respond(response)
                &&& exists|store: StoreResponse<U>, encoded: Option<Seq<char>>|
                    {
                        &&& is_response_of(store, reply)
                        &&& #[trigger] answers(entitlements@, eligible, store, encoded, response)
                        &&& encoded matches Some(token) ==> is_encoding_of(
                            token,
                            store.sync_token@,
                            outgoing(session.details),
                        )
                    }
            },
        },
        _ => next is Done && refuses(action, 502, "Sync session is out of step"@),
    }
}

/// Our entitlements, then the store's.
pub fn merge_entitlements<U>(local: Vec<KoboSyncEntitlement>, store: Vec<U>) -> (all: Vec<
    SyncedEntitlement<U>,
>)
    ensures
        all@ == merged(local@, store@),
{
    let ghost l0 = local@;
    let ghost s0 = store@;
    let mut all: Vec<SyncedEntitlement<U>> = Vec::new();
    for e in it: local
        invariant
            it.seq() == l0,
            all@ == l0.take(it.index() as int).map_values(
                |e: KoboSyncEntitlement| SyncedEntitlement::<U>::Local(e),
            ),
    {
        all.push(SyncedEntitlement::Local(e));
        assert(all@ =~= l0.take(it.index() + 1).map_values(
            |e: KoboSyncEntitlement| SyncedEntitlement::<U>::Local(e),
        ));
    }
    assert(l0.take(l0.len() as int) =~= l0);
    let ghost head = all@;
    for u in it: store
        invariant
            it.seq() == s0,
            all@ == head + s0.take(it.index() as int).map_values(
                |u: U| SyncedEntitlement::Store(u),
            ),
    {
        all.push(SyncedEntitlement::Store(u));
        assert(all@ =~= head + s0.take(it.index() + 1).map_values(
            |u: U| SyncedEntitlement::Store(u),
        ));
    }
    assert(s0.take(s0.len() as int) =~= s0);
    all
}

/// The answer to a sync, made of our entitlements `local`, the answer
/// `store` of the store and the token `encoded` for the device. Where no
/// token could be made the device is handed the store's own. When more items
/// were eligible than one answer carries the device is told to continue,
/// whatever the store said.
pub fn respond<U>(
    local: Vec<KoboSyncEntitlement>,
    eligible: usize,
    store: StoreResponse<U>,
    encoded: Option<String>,
) -> (response: SyncResponseDto<U>)
    ensures
        answers(local@, eligible, store, encoded.deep_view(), response),
        response.spec_status() == 200,
        eligible > SYNC_ITEM_LIMIT ==> (response matches SyncResponseDto::Success { sync, .. }
            && sync.deep_view() == Some("continue"@)),
{
    let StoreResponse { entitlements, sync_token, sync, sync_mode, recent_reads } = store;
    let all = merge_entitlements(local, entitlements);
    let token = match encoded {
        Some(token) => token,
        None => sync_token,
    };
    let flag = if eligible > SYNC_ITEM_LIMIT {
        Some(String::from_str("continue"))
    } else {
        sync
    };
    SyncResponseDto::Success {
        entitlements: all,
        sync_token: token,
        sync: flag,
        sync_mode,
        recent_reads,
    }
}

/// The answer that turns a device away because of a failure outside.
fn bad_gateway<U>(prefix: &str, error: &str) -> (action: SyncAction<U>)
    ensures
        refuses(action, 502, prefix@ + error@),
{
    SyncAction::Respond(SyncResponseDto::BadGateway(ErrorDto { message: glue(prefix, error) }))
}

/// The sync service for one library.
pub struct SyncService<'a> {
    pub abs_client: &'a AbsClient,
    pub config: &'a Config,
}

impl<'a> SyncService<'a> {
    /// The service for the library that `config` names, on top of
    /// `abs_client`.
    pub fn new(abs_client: &'a AbsClient, config: &'a Config) -> (r: Self)
        ensures
            r.abs_client == abs_client,
            r.config == config,
    {
        Self { abs_client, config }
    }

    /// Where a device fetches the item `library_item_id` from, in `format`.
    pub fn get_download_url_for_book(&self, library_item_id: u128, format: &BookFormatDto) -> (r:
        String)
        ensures
            r@ == download_url(library_item_id),
    {
        download_url_for(library_item_id)
    }

    /// The changes among `books` for the device `auth_token`, whose books
    /// watermark is `books_last_modified` and whose records are among
    /// `records`, in the order of `books`.
    pub fn collect_books_to_sync<'b>(
        &self,
        auth_token: u128,
        books_last_modified: &Option<UtcInstant>,
        books: &'b Vec<LibraryItem>,
        records: &Vec<SyncRecord>,
    ) -> (changes: Vec<(SyncType, &'b LibraryItem)>)
        ensures
            change_values(changes@) == changes_of(
                books@,
                match *books_last_modified {
                    Some(t) => t@,
                    None => 0,
                },
                synced_index(records@, auth_token),
            ),
    {
        let cutoff: i64 = match books_last_modified {
            Some(t) => t.timestamp(),
            None => 0,
        };
        let synced = index_records(records, auth_token);
        detect_changes(cutoff, books, &synced)
    }

    /// Begins the sync of the device `auth_token`, which sent the token
    /// `header` among the headers `headers`.
    pub fn begin<U>(
        &self,
        auth_token: u128,
        header: Option<&str>,
        headers: Vec<(String, String)>,
    ) -> (r: (SyncState, SyncAction<U>))
        ensures
            begins(auth_token, header_text(header), headers, r.0, r.1),
            header is None ==> r.0 is Done && (r.1 matches SyncAction::Respond(response)
                && response.spec_status() == 401 && response.spec_entitlement_count() == 0),
    {
        let token = match KoboSyncToken::decode(header) {
            Ok(token) => token,
            Err(e) => {
                let message = e.message();
                return (
                    SyncState::Done,
                    SyncAction::Respond(
                        SyncResponseDto::Forbidden(
                            ErrorDto {
                                message: glue("Invalid Kobo Sync Token: ", message.as_str()),
                            },
                        ),
                    ),
                );
            },
        };
        let (raw_token, details) = match token {
            KoboSyncToken::NoToken => {
                return (
                    SyncState::Done,
                    SyncAction::Respond(
                        SyncResponseDto::Unauthorized(ErrorDto::of("Kobo Sync Token is required")),
                    ),
                );
            },
            KoboSyncToken::OnlyRawToken { raw_kobo_store_token } => (
                raw_kobo_store_token,
                KoboFullTokenDetails::none(),
            ),
            KoboSyncToken::FullToken { raw_kobo_store_token, details } => (
                raw_kobo_store_token,
                details,
            ),
        };
        let session = SyncSession { device_id: auth_token, raw_token, details, headers };
        (SyncState::AwaitingApiKey { session }, SyncAction::ResolveApiKey { device_id: auth_token })
    }

    /// Takes a sync one step on: from what it waited for and what has
    /// happened to what it waits for next and what is to be done. `now` is
    /// the time from which new entitlements hold.
    pub fn step<U>(&self, state: SyncState, event: SyncEvent<U>, now: UtcInstant) -> (r: (
        SyncState,
        SyncAction<U>,
    ))
        ensures
            steps(self.config.library_id, state, event, now, r.0, r.1),
    {
        match (state, event) {
            (SyncState::AwaitingApiKey { session }, SyncEvent::ApiKey(Err(e))) => (
                SyncState::Done,
                bad_gateway("Failed to collect books for sync: ", e.as_str()),
            ),
            (SyncState::AwaitingApiKey { session }, SyncEvent::ApiKey(Ok(None))) => {
                let request = store_request(&session.headers, session.raw_token.as_str());
                let entitlements: Vec<KoboSyncEntitlement> = Vec::new();
                let next = SyncState::AwaitingStore { session, entitlements, eligible: 0 };
                let action = SyncAction::ForwardToStore { request };
                assert(forwards(session, entitlements, 0, next, action));
                (next, action)
            },
            (SyncState::AwaitingApiKey { session }, SyncEvent::ApiKey(Ok(Some(api_key)))) => (
                SyncState::AwaitingItems { session },
                SyncAction::FetchItems { library_id: self.config.library_id, api_key },
            ),
            (SyncState::AwaitingItems { session }, SyncEvent::Items(Err(e))) => (
                SyncState::Done,
                bad_gateway("Failed to collect books for sync: ", e.as_str()),
            ),
            (SyncState::AwaitingItems { session }, SyncEvent::Items(Ok(items))) => {
                let device_id = session.device_id;
                (
                    SyncState::AwaitingRecords { session, items },
                    SyncAction::LoadRecords { device_id },
                )
            },
            (SyncState::AwaitingRecords { session, items }, SyncEvent::Records(Err(e))) => (
                SyncState::Done,
                bad_gateway("Failed to collect books for sync: ", e.as_str()),
            ),
            (SyncState::AwaitingRecords { session, items }, SyncEvent::Records(Ok(records))) => {
                let changes = self.collect_books_to_sync(
                    session.device_id,
                    &session.details.books_last_modified,
                    &items,
                    &records,
                );
                let eligible = changes.len();
                let (entitlements, updates, skipped) = plan_delivery(
                    session.device_id,
                    &changes,
                    now,
                );
                (
                    SyncState::AwaitingPersist { session, entitlements, eligible },
                    SyncAction::ReplaceRecords { records: updates, skipped },
                )
            },
            (
                SyncState::AwaitingPersist { session, entitlements, eligible },
                SyncEvent::Persisted,
            ) => {
                let request = store_request(&session.headers, session.raw_token.as_str());
                (
                    SyncState::AwaitingStore { session, entitlements, eligible },
                    SyncAction::ForwardToStore { request },
                )
            },
            (
                SyncState::AwaitingStore { session, entitlements, eligible },
                SyncEvent::Store(Err(e)),
            ) => (SyncState::Done, bad_gateway("Failed to send sync request: ", e.as_str())),
            (
                SyncState::AwaitingStore { session, entitlements, eligible },
                SyncEvent::Store(Ok(reply)),
            ) => {
                let store = match store_answer(reply) {
                    Ok(store) => store,
                    Err(message) => {
                        return (
                            SyncState::Done,
                            SyncAction::Respond(
                                SyncResponseDto::BadGateway(ErrorDto { message }),
                            ),
                        );
                    },
                };
                let details = KoboFullTokenDetails {
                    books_last_modified: session.details.books_last_modified,
                    books_last_created: session.details.books_last_created,
                    archive_last_modified: None,
                    reading_state_last_modified: session.details.reading_state_last_modified,
                    tags_last_modified: session.details.tags_last_modified,
                };
                let encoded = KoboSyncToken::encode(store.sync_token.as_str(), &details);
                let ghost token = encoded.deep_view();
                let response = respond(entitlements, eligible, store, encoded);
                assert(answers(entitlements@, eligible, store, token, response));
                (SyncState::Done, SyncAction::Respond(response))
            },
            _ => (
                SyncState::Done,
                SyncAction::Respond(
                    SyncResponseDto::BadGateway(ErrorDto::of("Sync session is out of step")),
                ),
            ),
        }
    }
}

/// The answer to a request for a shelf called `name`, where `id` is the
/// identifier for the new shelf: a name that is blank is refused.
pub open spec fn tag_created(name: Seq<char>, id: u128, response: TagCreateResponseDto) -> bool {
    if trimmed(name).len() == 0 {
        response matches TagCreateResponseDto::BadRequest(e) && e.message@ == "Name is required"@
    } else {
        response matches TagCreateResponseDto::Created(text) && text@ == hyphenated(id)
    }
}

/// Makes a shelf with the identifier `id`.
pub fn create_tag_with_id(req: &TagCreateRequestDto, id: u128) -> (r: TagCreateResponseDto)
    ensures
        tag_created(req.name@, id, r),
{
    if is_blank(req.name.as_str()) {
        return TagCreateResponseDto::BadRequest(ErrorDto::of("Name is required"));
    }
    TagCreateResponseDto::Created(uuid_to_string(id))
}

/// The image addresses that a device is told at its initialization.
pub open spec fn resources() -> Json {
    Json::Object(
        Map::<Seq<char>, Json>::empty().insert("image_host"@, Json::String(""@)).insert(
            "image_url_template"@,
            Json::String(
                "/kobo/{authToken}/v1/books/{ImageId}/thumbnail/{Width}/{Height}/false/image.jpg"@,
            ),
        ).insert(
            "image_url_quality_template"@,
            Json::String(
                "/kobo/{authToken}/v1/books/{ImageId}/thumbnail/{Width}/{Height}/{Quality}/{IsGreyscale}/image.jpg"@,
            ),
        ),
    )
}

/// What a device is told at its initialization.
pub open spec fn initialization_document() -> Json {
    Json::Object(Map::<Seq<char>, Json>::empty().insert("Resources"@, resources()))
}

/// The user key in the body of a device that authenticates; the empty text
/// where the body has none.
pub open spec fn user_key_of(body: Json) -> Json {
    match member(body, "UserKey"@) {
        Some(key) => key,
        None => Json::String(""@),
    }
}

/// What a device that authenticates is answered, with the three tokens
/// `access`, `refresh` and `tracking`.
pub open spec fn device_auth_document(
    body: Json,
    access: u128,
    refresh: u128,
    tracking: u128,
) -> Json {
    Json::Object(
        Map::<Seq<char>, Json>::empty().insert(
            "AccessToken"@,
            Json::String(hyphenated(access)),
        ).insert("RefreshToken"@, Json::String(hyphenated(refresh))).insert(
            "TrackingId"@,
            Json::String(hyphenated(tracking)),
        ).insert("ExpiresIn"@, Json::Number(Some(3600))).insert(
            "TokenType"@,
            Json::String("Bearer"@),
        ).insert("UserKey"@, user_key_of(body)),
    )
}

/// Answers a device that authenticates with the tokens `access`, `refresh`
/// and `tracking`, good for an hour.
pub fn auth_device_with(
    body: &serde_json::Value,
    access: u128,
    refresh: u128,
    tracking: u128,
) -> (r: DeviceAuthResponseDto)
    ensures
        r matches DeviceAuthResponseDto::Success(doc) && json_model(doc) == device_auth_document(
            json_model(*body),
            access,
            refresh,
            tracking,
        ),
{
    let user_key = match json_get(body, "UserKey") {
        Some(key) => json_clone(key),
        None => json_string(""),
    };
    let mut doc = json_null();
    json_set(&mut doc, "AccessToken", json_string(uuid_to_string(access).as_str()));
    json_set(&mut doc, "RefreshToken", json_string(uuid_to_string(refresh).as_str()));
    json_set(&mut doc, "TrackingId", json_string(uuid_to_string(tracking).as_str()));
    json_set(&mut doc, "ExpiresIn", json_integer(3600));
    json_set(&mut doc, "TokenType", json_string("Bearer"));
    json_set(&mut doc, "UserKey", user_key);
    assert(json_model(doc) == device_auth_document(json_model(*body), access, refresh, tracking));
    DeviceAuthResponseDto::Success(doc)
}

impl<'a> SyncService<'a> {
    /// Makes a shelf, under a fresh identifier. A name that is blank is
    /// refused.
    pub fn create_tag(&self, req: TagCreateRequestDto) -> (r: TagCreateResponseDto)
        ensures
            exists|id: u128| tag_created(req.name@, id, r),
    {
        let id = uuid_random();
        let r = create_tag_with_id(&req, id);
        assert(tag_created(req.name@, id, r));
        r
    }

    /// Renames a shelf. Shelves are not kept: the answer is always the same.
    pub fn rename_tag(&self, _tag_id: &str, _name: &str) -> (r: EmptyOkResponseDto)
        ensures
            r == EmptyOkResponseDto::Success,
    {
        EmptyOkResponseDto::Success
    }

    /// Deletes a shelf. Shelves are not kept.
    pub fn delete_tag(&self, _tag_id: &str) -> (r: EmptyOkResponseDto)
        ensures
            r == EmptyOkResponseDto::Success,
    {
        EmptyOkResponseDto::Success
    }

    /// Puts items on a shelf. Shelves are not kept.
    pub fn add_tag_items(&self, _tag_id: &str, _items: Vec<TagItemDto>) -> (r: EmptyOkResponseDto)
        ensures
            r == EmptyOkResponseDto::Success,
    {
        EmptyOkResponseDto::Success
    }

    /// Takes items off a shelf. Shelves are not kept.
    pub fn remove_tag_items(&self, _tag_id: &str, _items: Vec<TagItemDto>) -> (r:
        EmptyOkResponseDto)
        ensures
            r == EmptyOkResponseDto::Success,
    {
        EmptyOkResponseDto::Success
    }

    /// Archives a book for a device. Nothing is kept of it.
    pub fn archive(&self, _book_uuid: &str) -> (r: NoContentResponseDto)
        ensures
            r == NoContentResponseDto::NoContent,
    {
        NoContentResponseDto::NoContent
    }

    /// What a device is told at its initialization: where images are found.
    pub fn initialization(&self) -> (r: InitializationResponseDto)
        ensures
            r matches InitializationResponseDto::Success(doc) && json_model(doc)
                == initialization_document(),
    {
        let mut inner = json_null();
        json_set(&mut inner, "image_host", json_string(""));
        json_set(
            &mut inner,
            "image_url_template",
            json_string(
                "/kobo/{authToken}/v1/books/{ImageId}/thumbnail/{Width}/{Height}/false/image.jpg",
            ),
        );
        json_set(
            &mut inner,
            "image_url_quality_template",
            json_string(
                "/kobo/{authToken}/v1/books/{ImageId}/thumbnail/{Width}/{Height}/{Quality}/{IsGreyscale}/image.jpg",
            ),
        );
        assert(json_model(inner) == resources());
        let mut doc = json_null();
        json_set(&mut doc, "Resources", inner);
        assert(json_model(doc) == initialization_document());
        InitializationResponseDto::Success(doc)
    }

    /// Answers a device that authenticates, with three fresh tokens.
    pub fn auth_device(&self, body: serde_json::Value) -> (r: DeviceAuthResponseDto)
        ensures
            exists|access: u128, refresh: u128, tracking: u128|
                r matches DeviceAuthResponseDto::Success(doc) && json_model(doc)
                    == #[trigger] device_auth_document(json_model(body), access, refresh, tracking),
    {
        let access = uuid_random();
        let refresh = uuid_random();
        let tracking = uuid_random();
        let r = auth_device_with(&body, access, refresh, tracking);
        assert(r matches DeviceAuthResponseDto::Success(doc) && json_model(doc)
            == device_auth_document(json_model(body), access, refresh, tracking));
        r
    }
}

/// An item that the device has no record of, that has a supported ebook and
/// that was added or updated after the watermark, is new.
pub proof fn lemma_unrecorded_item_is_new(item: LibraryItem, cutoff: int, synced: Map<u128, i64>)
    requires
        is_supported(item),
        is_candidate(item, cutoff),
        !synced.contains_key(item.id),
    ensures
        classify(item, cutoff, synced) == Some(SyncType::New),
{
}

/// An item that the device was told of in its present version is passed
/// over, even if it was updated after the watermark.
pub proof fn lemma_current_item_is_excluded(item: LibraryItem, cutoff: int, synced: Map<u128, i64>)
    requires
        synced.contains_key(item.id),
        synced[item.id] >= item.updated_at,
    ensures
        classify(item, cutoff, synced) is None,
{
}

/// An item that was updated after the device was told of it, and after the
/// watermark, is an update.
pub proof fn lemma_stale_item_is_updated(item: LibraryItem, cutoff: int, synced: Map<u128, i64>)
    requires
        is_supported(item),
        is_candidate(item, cutoff),
        synced.contains_key(item.id),
        synced[item.id] < item.updated_at,
    ensures
        classify(item, cutoff, synced) == Some(SyncType::Update),
{
}

/// What the records of a device say once `update` has been put in place:
/// what they said before, but for the item of the update, of which they say
/// the version of the update.
pub proof fn lemma_replaced_index(rows: Seq<SyncRecord>, record: SyncRecord, device_id: u128)
    ensures
        synced_index(replaced(rows, record), device_id) == if record.device_id
            == device_id {
            synced_index(rows, device_id).insert(record.remote_item_id, record.synced_at)
        } else {
            synced_index(rows, device_id)
        },
{
    let kept = without_pair(rows, record.device_id, record.remote_item_id);
    lemma_without_pair_index(rows, record.device_id, record.remote_item_id, device_id);
    assert(kept.push(record).drop_last() =~= kept);
    if record.device_id == device_id {
        assert(synced_index(rows, device_id).remove(record.remote_item_id).insert(
            record.remote_item_id,
            record.synced_at,
        ) =~= synced_index(rows, device_id).insert(record.remote_item_id, record.synced_at));
    }
}

/// What the records of a device say once the records of one pair have been
/// taken away: what they said before, but nothing of the item of the pair if
/// the pair is of the device.
pub proof fn lemma_without_pair_index(
    rows: Seq<SyncRecord>,
    pair_device: u128,
    pair_item: u128,
    device_id: u128,
)
    ensures
        synced_index(without_pair(rows, pair_device, pair_item), device_id) == if pair_device
            == device_id {
            synced_index(rows, device_id).remove(pair_item)
        } else {
            synced_index(rows, device_id)
        },
    decreases rows.len(),
{
    if rows.len() > 0 {
        let earlier = rows.drop_last();
        let last = rows.last();
        lemma_without_pair_index(earlier, pair_device, pair_item, device_id);
        let kept = without_pair(earlier, pair_device, pair_item);
        if !last.is_for(pair_device, pair_item) {
            assert(kept.push(last).drop_last() =~= kept);
        }
        let index = synced_index(earlier, device_id);
        if pair_device == device_id {
            if last.is_for(pair_device, pair_item) {
                assert(index.insert(pair_item, last.synced_at).remove(pair_item) =~= index.remove(
                    pair_item,
                ));
            } else if last.device_id == device_id {
                assert(index.remove(pair_item).insert(last.remote_item_id, last.synced_at)
                    =~= index.insert(last.remote_item_id, last.synced_at).remove(pair_item));
            }
        }
    } else {
        assert(synced_index(rows, device_id).remove(pair_item) =~= synced_index(rows, device_id));
    }
}

/// The record, under the identifier `id`, that `device_id` was told of a
/// change.
pub open spec fn delivery_record(
    id: u128,
    device_id: u128,
    change: (SyncType, LibraryItem),
) -> SyncRecord {
    SyncRecord {
        id,
        device_id,
        remote_item_id: record_for(device_id, change).remote_item_id,
        synced_at: record_for(device_id, change).synced_at,
    }
}

/// An item that a device has just been told of is not told again: once the
/// record of its delivery is in place, the item is no change for the device,
/// whatever the watermark, until it is updated.
pub proof fn lemma_delivered_item_is_current(
    rows: Seq<SyncRecord>,
    id: u128,
    device_id: u128,
    change: (SyncType, LibraryItem),
    cutoff: int,
)
    ensures
        classify(
            change.1,
            cutoff,
            synced_index(replaced(rows, delivery_record(id, device_id, change)), device_id),
        ) is None,
{
    lemma_replaced_index(rows, delivery_record(id, device_id, change), device_id);
}

/// With no records at all, every change is a new item.
pub proof fn lemma_first_sync_is_all_new(items: Seq<LibraryItem>, cutoff: int)
    ensures
        forall|k: int|
            0 <= k < changes_of(items, cutoff, Map::empty()).len() ==> (#[trigger] changes_of(
                items,
                cutoff,
                Map::empty(),
            )[k]).0 == SyncType::New,
    decreases items.len(),
{
    if items.len() > 0 {
        lemma_first_sync_is_all_new(items.drop_last(), cutoff);
    }
}

/// Every item that has a supported ebook and was added or updated after the
/// watermark is a change when there are no records: nothing is left out.
pub proof fn lemma_first_sync_takes_all(items: Seq<LibraryItem>, cutoff: int)
    requires
        forall|k: int| 0 <= k < items.len() ==> is_supported(#[trigger] items[k]) && is_candidate(
            items[k],
            cutoff,
        ),
    ensures
        changes_of(items, cutoff, Map::empty()) == items.map_values(
            |item: LibraryItem| (SyncType::New, item),
        ),
    decreases items.len(),
{
    if items.len() > 0 {
        let before = items.drop_last();
        assert forall|k: int| 0 <= k < before.len() implies is_supported(#[trigger] before[k])
            && is_candidate(before[k], cutoff) by {
            assert(before[k] == items[k]);
        }
        lemma_first_sync_takes_all(before, cutoff);
        assert(is_supported(items[items.len() - 1]));
        assert(changes_of(items, cutoff, Map::empty()) =~= items.map_values(
            |item: LibraryItem| (SyncType::New, item),
        ));
    } else {
        assert(changes_of(items, cutoff, Map::empty()) =~= items.map_values(
            |item: LibraryItem| (SyncType::New, item),
        ));
    }
}

} // verus!
