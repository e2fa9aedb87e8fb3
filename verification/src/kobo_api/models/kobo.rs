//! Books as a device is told of them, and how they are made from the items
//! of the library.

use vstd::prelude::*;
use vstd::string::*;
use crate::abs_client::LibraryItem;
use crate::ident::{uuid_v5, uuid_v5_of, SERIES_NAMESPACE};
use crate::text::{clone_opt_string, comma_list, split_commas_trimmed};
use crate::time::{is_representable, UtcInstant};

verus! {

/// The one category and the one genre that every book is filed under.
pub const DEFAULT_CATEGORY: u128 = 1;

/// The instant that stands for the time `timestamp` seconds after the UNIX
/// epoch.
pub fn timestamp_to_utc(timestamp: i64) -> (r: UtcInstant)
    requires
        is_representable(timestamp as int),
    ensures
        r@ == timestamp,
        r == UtcInstant::at(timestamp as int),
{
    match UtcInstant::from_timestamp(timestamp) {
        Some(t) => t,
        None => {
            proof {
                assert(false);
            }
            UtcInstant::epoch()
        },
    }
}

/// The rights of a device to a book.
#[derive(Debug, Clone, Copy, PartialEq, Eq, Structural)]
pub struct BookEntitlement {
    pub accessibility: BookAccessibility,
    pub active_period: ActivePeriod,
    pub created: UtcInstant,
    pub cross_revision_id: u128,
    pub id: u128,
    pub is_removed: bool,
    pub is_hidden_from_archive: bool,
    pub is_locked: bool,
    pub last_modified: UtcInstant,
    pub origin_category: BookOriginCategory,
    pub revision_id: u128,
    pub status: BookStatus,
}

/// How much of a book a device may open: all of it.
#[derive(Debug, Clone, Copy, PartialEq, Eq, Structural)]
pub enum BookAccessibility {
    Full,
}

impl Default for BookAccessibility {
    fn default() -> (r: BookAccessibility)
        ensures
            r == BookAccessibility::Full,
    {
        BookAccessibility::Full
    }
}

/// Whether an entitlement holds.
#[derive(Debug, Clone, Copy, PartialEq, Eq, Structural)]
pub enum BookStatus {
    Active,
}

impl Default for BookStatus {
    fn default() -> (r: BookStatus)
        ensures
            r == BookStatus::Active,
    {
        BookStatus::Active
    }
}

/// Where a book came from: it was brought in from outside the store.
#[derive(Debug, Clone, Copy, PartialEq, Eq, Structural)]
pub enum BookOriginCategory {
    Imported,
}

impl Default for BookOriginCategory {
    fn default() -> (r: BookOriginCategory)
        ensures
            r == BookOriginCategory::Imported,
    {
        BookOriginCategory::Imported
    }
}

/// The time from which an entitlement holds.
#[derive(Debug, Clone, Copy, PartialEq, Eq, Structural)]
pub struct ActivePeriod {
    pub from: UtcInstant,
}

/// Why an item of the library cannot be told to a device.
#[derive(Debug, Clone, Copy, PartialEq, Eq, Structural)]
pub enum ItemMappingError {
    /// The time at which the item was added or updated is no instant that can
    /// be represented.
    TimestampOutOfRange,
}

impl ItemMappingError {
    /// The words for this error.
    pub fn message(&self) -> (r: String)
        ensures
            r@ == "Item timestamp is out of range"@,
    {
        String::from_str("Item timestamp is out of range")
    }
}

/// Whether the times at which `item` was added and updated are instants that
/// can be represented.
pub open spec fn has_valid_times(item: LibraryItem) -> bool {
    is_representable(item.added_at as int) && is_representable(item.updated_at as int)
}

/// The entitlement to `item` that holds from `now`. Every identifier in it is
/// that of the item.
pub open spec fn entitlement_of(item: LibraryItem, now: UtcInstant) -> BookEntitlement {
    BookEntitlement {
        accessibility: BookAccessibility::Full,
        active_period: ActivePeriod { from: now },
        created: UtcInstant::at(item.added_at as int),
        cross_revision_id: item.id,
        id: item.id,
        is_removed: false,
        is_hidden_from_archive: false,
        is_locked: false,
        last_modified: UtcInstant::at(item.updated_at as int),
        origin_category: BookOriginCategory::Imported,
        revision_id: item.id,
        status: BookStatus::Active,
    }
}

impl BookEntitlement {
    /// The entitlement to `item` that holds from `now`.
    pub fn from_library_item(item: &LibraryItem, now: UtcInstant) -> (r: BookEntitlement)
        requires
            has_valid_times(*item),
        ensures
            r == entitlement_of(*item, now),
    {
        BookEntitlement {
            accessibility: BookAccessibility::Full,
            active_period: ActivePeriod { from: now },
            created: timestamp_to_utc(item.added_at),
            cross_revision_id: item.id,
            id: item.id,
            is_removed: false,
            is_hidden_from_archive: false,
            is_locked: false,
            last_modified: timestamp_to_utc(item.updated_at),
            origin_category: BookOriginCategory::Imported,
            revision_id: item.id,
            status: BookStatus::Active,
        }
    }
}

/// How a title is spoken; nothing is known of it.
#[derive(Debug, Clone, PartialEq)]
pub struct PhoneticPronounciations {}

/// Who published a book.
#[derive(Debug, Clone, PartialEq)]
pub struct KoboPublisher {
    pub imprint: String,
    pub name: Option<String>,
}

/// Someone who contributed to a book.
#[derive(Debug, Clone, PartialEq)]
pub struct KoboSyncedContributorRole {
    pub name: String,
}

impl DeepView for KoboSyncedContributorRole {
    type V = Seq<char>;

    open spec fn deep_view(&self) -> Seq<char> {
        self.name@
    }
}

/// The series that a book belongs to. The library server gives a series no
/// lasting identifier, so `id` is made from the name.
#[derive(Debug, Clone, PartialEq)]
pub struct KoboSyncedSeries {
    pub name: String,
    pub id: u128,
}

/// The mathematical value of a `KoboSyncedSeries`.
pub struct SeriesView {
    pub name: Seq<char>,
    pub id: u128,
}

impl DeepView for KoboSyncedSeries {
    type V = SeriesView;

    open spec fn deep_view(&self) -> SeriesView {
        SeriesView { name: self.name@, id: self.id }
    }
}

/// How far a reader is with a book.
#[derive(Debug, Clone, Copy, PartialEq, Eq, Structural)]
pub enum KoboSyncedStatus {
    ReadyToRead,
    Finished,
    Reading,
}

/// Where in a book a bookmark stands.
#[derive(Debug, Clone, PartialEq)]
pub struct KoboCurrentBookmarkLocation {
    pub value: String,
    pub _type: String,
    pub source: String,
}

/// What a device is told of a book.
#[derive(Debug, Clone, PartialEq)]
pub struct BookMetadata {
    pub categories: Vec<u128>,
    pub cover_image_id: u128,
    pub cross_revision_id: u128,
    pub description: Option<String>,
    pub download_urls: Vec<String>,
    pub entitlement_id: u128,
    pub external_ids: Vec<u128>,
    pub genre: u128,
    pub is_eligible_for_kobo_love: bool,
    pub is_internet_archive: bool,
    pub is_pre_order: bool,
    pub is_social_enabled: bool,
    pub language: String,
    pub phonetic_pronunciations: PhoneticPronounciations,
    pub publication_date: UtcInstant,
    pub revision_id: u128,
    pub title: String,
    pub work_id: u128,
    pub contributors: Option<Vec<String>>,
    pub contributor_roles: Option<Vec<KoboSyncedContributorRole>>,
    pub series: Option<KoboSyncedSeries>,
}

/// The mathematical value of a `BookMetadata`.
pub struct BookMetadataView {
    pub categories: Seq<u128>,
    pub cover_image_id: u128,
    pub cross_revision_id: u128,
    pub description: Option<Seq<char>>,
    pub download_urls: Seq<Seq<char>>,
    pub entitlement_id: u128,
    pub external_ids: Seq<u128>,
    pub genre: u128,
    pub is_eligible_for_kobo_love: bool,
    pub is_internet_archive: bool,
    pub is_pre_order: bool,
    pub is_social_enabled: bool,
    pub language: Seq<char>,
    pub publication_date: UtcInstant,
    pub revision_id: u128,
    pub title: Seq<char>,
    pub work_id: u128,
    pub contributors: Option<Seq<Seq<char>>>,
    pub contributor_roles: Option<Seq<Seq<char>>>,
    pub series: Option<SeriesView>,
}

impl View for BookMetadata {
    type V = BookMetadataView;

    open spec fn view(&self) -> BookMetadataView {
        BookMetadataView {
            categories: self.categories@,
            cover_image_id: self.cover_image_id,
            cross_revision_id: self.cross_revision_id,
            description: self.description.deep_view(),
            download_urls: self.download_urls.deep_view(),
            entitlement_id: self.entitlement_id,
            external_ids: self.external_ids@,
            genre: self.genre,
            is_eligible_for_kobo_love: self.is_eligible_for_kobo_love,
            is_internet_archive: self.is_internet_archive,
            is_pre_order: self.is_pre_order,
            is_social_enabled: self.is_social_enabled,
            language: self.language@,
            publication_date: self.publication_date,
            revision_id: self.revision_id,
            title: self.title@,
            work_id: self.work_id,
            contributors: self.contributors.deep_view(),
            contributor_roles: self.contributor_roles.deep_view(),
            series: self.series.deep_view(),
        }
    }
}

/// The title of `item`; `Untitled` where it has none.
pub open spec fn title_of(item: LibraryItem) -> Seq<char> {
    match item.media.metadata.title {
        Some(title) => title@,
        None => "Untitled"@,
    }
}

/// The language of `item`; `en` where it names none.
pub open spec fn language_of(item: LibraryItem) -> Seq<char> {
    match item.media.metadata.language {
        Some(language) => language@,
        None => "en"@,
    }
}

/// The day `item` was published: the instant of its publication date where
/// that reads as RFC 3339, else the UNIX epoch.
pub open spec fn publication_date_of(item: LibraryItem) -> UtcInstant {
    match item.media.metadata.published_date {
        Some(date) => match UtcInstant::of_text(date@) {
            Some(instant) => instant,
            None => UtcInstant::at(0),
        },
        None => UtcInstant::at(0),
    }
}

/// The contributors to `item`: the names between the commas of its author
/// line, each trimmed; none, rather than an empty list, where it has no
/// author line.
pub open spec fn contributors_of(item: LibraryItem) -> Option<Seq<Seq<char>>> {
    match item.media.metadata.author_name {
        Some(authors) => Some(comma_list(authors@)),
        None => None,
    }
}

/// The identifier of the series called `name`: the name-based identifier of
/// the name under `SERIES_NAMESPACE`.
pub open spec fn series_id(name: Seq<char>) -> u128 {
    uuid_v5_of(SERIES_NAMESPACE, name)
}

/// The series of `item`: none where it names none or names it with the empty
/// text, else the series of that name.
pub open spec fn series_of(item: LibraryItem) -> Option<SeriesView> {
    match item.media.metadata.series_name {
        Some(name) => if name@.len() == 0 {
            None
        } else {
            Some(SeriesView { name: name@, id: series_id(name@) })
        },
        None => None,
    }
}

/// What a device is told of `item`, with the given addresses to fetch it
/// from. Every identifier in it is that of the item.
pub open spec fn metadata_of(item: LibraryItem, download_urls: Seq<Seq<char>>) -> BookMetadataView {
    BookMetadataView {
        categories: seq![DEFAULT_CATEGORY],
        cover_image_id: item.id,
        cross_revision_id: item.id,
        description: item.media.metadata.description.deep_view(),
        download_urls,
        entitlement_id: item.id,
        external_ids: Seq::<u128>::empty(),
        genre: DEFAULT_CATEGORY,
        is_eligible_for_kobo_love: false,
        is_internet_archive: false,
        is_pre_order: false,
        is_social_enabled: true,
        language: language_of(item),
        publication_date: publication_date_of(item),
        revision_id: item.id,
        title: title_of(item),
        work_id: item.id,
        contributors: contributors_of(item),
        contributor_roles: contributors_of(item),
        series: series_of(item),
    }
}

/// Two items with the same series name are in the same series, under the
/// same identifier.
pub proof fn lemma_same_series_name_same_id(a: LibraryItem, b: LibraryItem)
    requires
        a.media.metadata.series_name.deep_view() == b.media.metadata.series_name.deep_view(),
    ensures
        series_of(a) == series_of(b),
{
}

/// The series called `name`; none for the empty name.
pub fn series_named(name: &str) -> (r: Option<KoboSyncedSeries>)
    ensures
        r.deep_view() == if name@.len() == 0 {
            None
        } else {
            Some(SeriesView { name: name@, id: series_id(name@) })
        },
{
    if name.unicode_len() == 0 {
        None
    } else {
        Some(KoboSyncedSeries { name: name.to_string(), id: uuid_v5(SERIES_NAMESPACE, name) })
    }
}

/// The roles of the contributors `names`: one for each, in order.
fn roles_of(names: &Vec<String>) -> (r: Vec<KoboSyncedContributorRole>)
    ensures
        r.deep_view() == names.deep_view(),
{
    let mut out: Vec<KoboSyncedContributorRole> = Vec::new();
    let mut i: usize = 0;
    while i < names.len()
        invariant
            i <= names@.len(),
            out@.len() == i,
            forall|k: int| 0 <= k < i ==> out@[k].name@ == names@[k]@,
        decreases names.len() - i,
    {
        out.push(KoboSyncedContributorRole { name: names[i].clone() });
        i = i + 1;
    }
    assert(out.deep_view() =~= names.deep_view());
    out
}

impl BookMetadata {
    /// What a device is told of `item`. An item whose times cannot be
    /// represented is refused with `TimestampOutOfRange`; every other item
    /// gives its metadata.
    pub fn try_from_library_item(value: &LibraryItem, download_urls: Vec<String>) -> (r: Result<
        BookMetadata,
        ItemMappingError,
    >)
        ensures
            match r {
                Ok(metadata) => has_valid_times(*value) && metadata@ == metadata_of(
                    *value,
                    download_urls.deep_view(),
                ),
                Err(e) => !has_valid_times(*value) && e == ItemMappingError::TimestampOutOfRange,
            },
    {
        if UtcInstant::from_timestamp(value.added_at).is_none() || UtcInstant::from_timestamp(
            value.updated_at,
        ).is_none() {
            return Err(ItemMappingError::TimestampOutOfRange);
        }
        let authors: Option<Vec<String>> = match &value.media.metadata.author_name {
            Some(author) => Some(split_commas_trimmed(author.as_str())),
            None => None,
        };
        let roles: Option<Vec<KoboSyncedContributorRole>> = match &authors {
            Some(names) => Some(roles_of(names)),
            None => None,
        };
        let language = match &value.media.metadata.language {
            Some(language) => language.clone(),
            None => String::from_str("en"),
        };
        let title = match &value.media.metadata.title {
            Some(title) => title.clone(),
            None => String::from_str("Untitled"),
        };
        let publication_date = match &value.media.metadata.published_date {
            Some(date) => match UtcInstant::parse_from_rfc3339(date.as_str()) {
                Some(instant) => instant,
                None => UtcInstant::epoch(),
            },
            None => UtcInstant::epoch(),
        };
        let series = match &value.media.metadata.series_name {
            Some(name) => series_named(name.as_str()),
            None => None,
        };
        let mut categories: Vec<u128> = Vec::new();
        categories.push(DEFAULT_CATEGORY);
        let metadata = BookMetadata {
            categories,
            cover_image_id: value.id,
            cross_revision_id: value.id,
            description: clone_opt_string(&value.media.metadata.description),
            download_urls,
            entitlement_id: value.id,
            external_ids: Vec::new(),
            genre: DEFAULT_CATEGORY,
            is_eligible_for_kobo_love: false,
            is_internet_archive: false,
            is_pre_order: false,
            is_social_enabled: true,
            language,
            phonetic_pronunciations: PhoneticPronounciations {  },
            publication_date,
            revision_id: value.id,
            title,
            work_id: value.id,
            contributors: authors,
            contributor_roles: roles,
            series,
        };
        proof {
            let want = metadata_of(*value, download_urls.deep_view());
            assert(metadata@.categories =~= want.categories);
            assert(metadata@.external_ids =~= want.external_ids);
            assert(metadata@.contributors == want.contributors);
            assert(metadata@.contributor_roles == want.contributor_roles);
            assert(metadata@.series == want.series);
        }
        Ok(metadata)
    }
}

/// A book as a device is told of it: the rights to it and what is known of
/// it.
#[derive(Debug, Clone, PartialEq)]
pub struct KoboSyncedBook {
    pub book_entitlement: BookEntitlement,
    pub book_metadata: BookMetadata,
}

/// The mathematical value of a `KoboSyncedBook`.
pub struct SyncedBookView {
    pub book_entitlement: BookEntitlement,
    pub book_metadata: BookMetadataView,
}

impl View for KoboSyncedBook {
    type V = SyncedBookView;

    open spec fn view(&self) -> SyncedBookView {
        SyncedBookView {
            book_entitlement: self.book_entitlement,
            book_metadata: self.book_metadata@,
        }
    }
}

/// The book that stands for `item`.
pub open spec fn book_of(
    item: LibraryItem,
    download_urls: Seq<Seq<char>>,
    now: UtcInstant,
) -> SyncedBookView {
    SyncedBookView {
        book_entitlement: entitlement_of(item, now),
        book_metadata: metadata_of(item, download_urls),
    }
}

impl KoboSyncedBook {
    /// The book that stands for `item`, entitled from `now`, or the reason
    /// why the item cannot be told to a device.
    pub fn try_from_library_item(
        item: &LibraryItem,
        download_urls: Vec<String>,
        now: UtcInstant,
    ) -> (r: Result<KoboSyncedBook, ItemMappingError>)
        ensures
            match r {
                Ok(book) => has_valid_times(*item) && book@ == book_of(
                    *item,
                    download_urls.deep_view(),
                    now,
                ),
                Err(e) => !has_valid_times(*item) && e == ItemMappingError::TimestampOutOfRange,
            },
    {
        match BookMetadata::try_from_library_item(item, download_urls) {
            Ok(book_metadata) => {
                let book_entitlement = BookEntitlement::from_library_item(item, now);
                Ok(KoboSyncedBook { book_entitlement, book_metadata })
            },
            Err(e) => Err(e),
        }
    }
}

/// A book that a device has not been told of before.
#[derive(Debug, Clone, PartialEq)]
pub struct NewEntitlement {
    pub new_entitlement: KoboSyncedBook,
}

/// A book that has changed since a device was told of it.
#[derive(Debug, Clone, PartialEq)]
pub struct ChangedEntitlement {
    pub changed_entitlement: KoboSyncedBook,
}

/// One change that a device is told of.
#[derive(Debug, Clone, PartialEq)]
pub enum KoboSyncEntitlement {
    NewEntitlement(NewEntitlement),
    ChangedEntitlement(ChangedEntitlement),
}

/// The mathematical value of a `KoboSyncEntitlement`.
pub enum SyncEntitlementView {
    NewEntitlement(SyncedBookView),
    ChangedEntitlement(SyncedBookView),
}

impl View for KoboSyncEntitlement {
    type V = SyncEntitlementView;

    open spec fn view(&self) -> SyncEntitlementView {
        match self {
            KoboSyncEntitlement::NewEntitlement(e) => SyncEntitlementView::NewEntitlement(
                e.new_entitlement@,
            ),
            KoboSyncEntitlement::ChangedEntitlement(e) => SyncEntitlementView::ChangedEntitlement(
                e.changed_entitlement@,
            ),
        }
    }
}

} // verus!
