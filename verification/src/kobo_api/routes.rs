//! The sync token that a device presents and is handed back.
//!
//! A token is either the opaque token of the vendor's store, which holds a
//! `.`, or base64 of a JSON object that carries that store token beside up to
//! five watermarks, each written as RFC 3339 text with whole seconds.

use vstd::prelude::*;
use vstd::string::*;
use crate::encoding::{base64_bytes, base64_text, decode_text, encodable_len, encode_bytes};
use crate::json::{
    get_string, is_string_object, json_model, json_null, json_parsed, json_set, json_string,
    json_text, json_to_text, members_of, parse_json, string_member, Json,
};
use crate::text::contains_char;
use crate::time::UtcInstant;

verus! {

/// The groups under which the endpoints are listed.
#[derive(Clone, Copy, Debug, PartialEq, Eq, Structural)]
pub enum ApiTags {
    UserManagement,
    DeviceManagement,
    KoboSync,
    Health,
    ExploreAbs,
}

/// The name of the header that carries the sync token.
pub const HEADER_NAME: &'static str = "x-kobo-synctoken";

/// How far each kind of data has been delivered to a device. A watermark
/// that is `None` stands for "never synced", which compares as the UNIX
/// epoch.
#[derive(Clone, Copy, Debug, PartialEq, Eq, Structural)]
pub struct KoboFullTokenDetails {
    pub books_last_modified: Option<UtcInstant>,
    pub books_last_created: Option<UtcInstant>,
    pub archive_last_modified: Option<UtcInstant>,
    pub reading_state_last_modified: Option<UtcInstant>,
    pub tags_last_modified: Option<UtcInstant>,
}

/// A sync token as a device presents it.
#[derive(Debug, Clone, PartialEq)]
pub enum KoboSyncToken {
    /// Nothing to go by.
    NoToken,
    /// A token that the vendor's store issued; nothing was synced from here.
    OnlyRawToken { raw_kobo_store_token: String },
    /// A token issued here: the store's token and the watermarks.
    FullToken { raw_kobo_store_token: String, details: KoboFullTokenDetails },
}

/// The mathematical value of a `KoboSyncToken`.
pub enum SyncTokenView {
    NoToken,
    OnlyRawToken { raw_kobo_store_token: Seq<char> },
    FullToken { raw_kobo_store_token: Seq<char>, details: KoboFullTokenDetails },
}

impl View for KoboSyncToken {
    type V = SyncTokenView;

    open spec fn view(&self) -> SyncTokenView {
        match self {
            KoboSyncToken::NoToken => SyncTokenView::NoToken,
            KoboSyncToken::OnlyRawToken { raw_kobo_store_token } => SyncTokenView::OnlyRawToken {
                raw_kobo_store_token: raw_kobo_store_token@,
            },
            KoboSyncToken::FullToken { raw_kobo_store_token, details } => SyncTokenView::FullToken {
                raw_kobo_store_token: raw_kobo_store_token@,
                details: *details,
            },
        }
    }
}

/// Why a token could not be read.
#[derive(Clone, Copy, Debug, PartialEq, Eq, Structural)]
pub enum TokenDecodeError {
    /// The token holds no `.` and is not base64.
    InvalidFormat,
    /// The token is base64 of something that is not JSON.
    InvalidJson,
}

impl TokenDecodeError {
    /// The words for this error.
    pub open spec fn spec_message(self) -> Seq<char> {
        match self {
            TokenDecodeError::InvalidFormat => "Invalid Kobo sync token format"@,
            TokenDecodeError::InvalidJson => "Invalid Kobo sync token JSON format"@,
        }
    }

    /// The words for this error.
    pub fn message(&self) -> (r: String)
        ensures
            r@ == self.spec_message(),
    {
        match self {
            TokenDecodeError::InvalidFormat => String::from_str("Invalid Kobo sync token format"),
            TokenDecodeError::InvalidJson => String::from_str(
                "Invalid Kobo sync token JSON format",
            ),
        }
    }
}

/// The member that holds the store's token.
pub open spec fn raw_key() -> Seq<char> {
    "raw_kobo_store_token"@
}

/// The member that holds the books watermark.
pub open spec fn books_last_modified_key() -> Seq<char> {
    "books_last_modified"@
}

/// The member that holds the watermark of created books.
pub open spec fn books_last_created_key() -> Seq<char> {
    "books_last_created"@
}

/// The member that holds the archive watermark.
pub open spec fn archive_last_modified_key() -> Seq<char> {
    "archive_last_modified"@
}

/// The member that holds the reading-state watermark.
pub open spec fn reading_state_last_modified_key() -> Seq<char> {
    "reading_state_last_modified"@
}

/// The member that holds the tags watermark.
pub open spec fn tags_last_modified_key() -> Seq<char> {
    "tags_last_modified"@
}

/// The six member names differ from one another.
pub proof fn lemma_keys_distinct()
    ensures
        raw_key() != books_last_modified_key(),
        raw_key() != books_last_created_key(),
        raw_key() != archive_last_modified_key(),
        raw_key() != reading_state_last_modified_key(),
        raw_key() != tags_last_modified_key(),
        books_last_modified_key() != books_last_created_key(),
        books_last_modified_key() != archive_last_modified_key(),
        books_last_modified_key() != reading_state_last_modified_key(),
        books_last_modified_key() != tags_last_modified_key(),
        books_last_created_key() != archive_last_modified_key(),
        books_last_created_key() != reading_state_last_modified_key(),
        books_last_created_key() != tags_last_modified_key(),
        archive_last_modified_key() != reading_state_last_modified_key(),
        archive_last_modified_key() != tags_last_modified_key(),
        reading_state_last_modified_key() != tags_last_modified_key(),
{
    reveal_strlit("raw_kobo_store_token");
    reveal_strlit("books_last_modified");
    reveal_strlit("books_last_created");
    reveal_strlit("archive_last_modified");
    reveal_strlit("reading_state_last_modified");
    reveal_strlit("tags_last_modified");
    assert(raw_key()[0] == 'r');
    assert(books_last_modified_key()[0] == 'b');
    assert(books_last_created_key()[0] == 'b');
    assert(archive_last_modified_key()[0] == 'a');
    assert(reading_state_last_modified_key()[1] == 'e');
    assert(raw_key()[1] == 'a');
    assert(tags_last_modified_key()[0] == 't');
    assert(books_last_modified_key().len() == 19);
    assert(books_last_created_key().len() == 18);
}

/// The watermark that the member `key` of a token document denotes: the
/// instant of its text where the member is a string that reads as RFC 3339.
pub open spec fn watermark_of(doc: Json, key: Seq<char>) -> Option<UtcInstant> {
    match string_member(doc, key) {
        Some(text) => UtcInstant::of_text(text),
        None => None,
    }
}

/// The watermarks that a token document denotes.
pub open spec fn details_of(doc: Json) -> KoboFullTokenDetails {
    KoboFullTokenDetails {
        books_last_modified: watermark_of(doc, books_last_modified_key()),
        books_last_created: watermark_of(doc, books_last_created_key()),
        archive_last_modified: watermark_of(doc, archive_last_modified_key()),
        reading_state_last_modified: watermark_of(doc, reading_state_last_modified_key()),
        tags_last_modified: watermark_of(doc, tags_last_modified_key()),
    }
}

/// The token that a JSON document denotes: none without a store token, else
/// a full token.
pub open spec fn token_of(doc: Json) -> SyncTokenView {
    match string_member(doc, raw_key()) {
        Some(raw) => SyncTokenView::FullToken {
            raw_kobo_store_token: raw,
            details: details_of(doc),
        },
        None => SyncTokenView::NoToken,
    }
}

/// What a token text denotes.
pub open spec fn decoded(token: Seq<char>) -> Result<SyncTokenView, TokenDecodeError> {
    if token.contains('.') {
        Ok(SyncTokenView::OnlyRawToken { raw_kobo_store_token: token })
    } else {
        match base64_bytes(token) {
            None => Err(TokenDecodeError::InvalidFormat),
            Some(bytes) => match json_parsed(bytes) {
                None => Err(TokenDecodeError::InvalidJson),
                Some(doc) => Ok(token_of(doc)),
            },
        }
    }
}

/// What a token header denotes; a missing header is no token.
pub open spec fn decoded_header(header: Option<Seq<char>>) -> Result<
    SyncTokenView,
    TokenDecodeError,
> {
    match header {
        Some(token) => decoded(token),
        None => Ok(SyncTokenView::NoToken),
    }
}

/// The text of a header, if there is one.
pub open spec fn header_text(header: Option<&str>) -> Option<Seq<char>> {
    match header {
        Some(token) => Some(token@),
        None => None,
    }
}

/// `members` with the watermark `mark`, if there is one, written under `key`.
pub open spec fn with_watermark(
    members: Map<Seq<char>, Json>,
    key: Seq<char>,
    mark: Option<UtcInstant>,
) -> Map<Seq<char>, Json> {
    match mark {
        Some(instant) => members.insert(key, Json::String(instant.text())),
        None => members,
    }
}

/// The members of the JSON object that stands for a full token.
pub open spec fn token_members(raw: Seq<char>, details: KoboFullTokenDetails) -> Map<
    Seq<char>,
    Json,
> {
    let m0 = Map::<Seq<char>, Json>::empty().insert(raw_key(), Json::String(raw));
    let m1 = with_watermark(m0, books_last_modified_key(), details.books_last_modified);
    let m2 = with_watermark(m1, books_last_created_key(), details.books_last_created);
    let m3 = with_watermark(m2, archive_last_modified_key(), details.archive_last_modified);
    let m4 = with_watermark(
        m3,
        reading_state_last_modified_key(),
        details.reading_state_last_modified,
    );
    with_watermark(m4, tags_last_modified_key(), details.tags_last_modified)
}

/// The JSON text of a full token: the compact text of the object with the
/// members of the token.
pub open spec fn token_text(raw: Seq<char>, details: KoboFullTokenDetails) -> Seq<char> {
    json_text(Json::Object(token_members(raw, details)))
}

/// The text of a full token: base64 of the UTF-8 bytes of its JSON text, or
/// nothing where those are too many for the encoder.
pub open spec fn encoded(raw: Seq<char>, details: KoboFullTokenDetails) -> Option<Seq<char>> {
    let bytes = vstd::utf8::encode_utf8(token_text(raw, details));
    if encodable_len(bytes.len()) {
        Some(base64_text(bytes))
    } else {
        None
    }
}

/// Whether `text` is a token for `raw` and `details`: base64 of a JSON
/// document that is the object with exactly the members of the token.
pub open spec fn is_encoding_of(
    text: Seq<char>,
    raw: Seq<char>,
    details: KoboFullTokenDetails,
) -> bool {
    exists|bytes: Seq<u8>|
        {
            &&& #[trigger] base64_text(bytes) == text
            &&& base64_bytes(text) == Some(bytes)
            &&& json_parsed(bytes) == Some(Json::Object(token_members(raw, details)))
        }
}

impl KoboFullTokenDetails {
    /// No watermark at all.
    pub open spec fn spec_none() -> KoboFullTokenDetails {
        KoboFullTokenDetails {
            books_last_modified: None,
            books_last_created: None,
            archive_last_modified: None,
            reading_state_last_modified: None,
            tags_last_modified: None,
        }
    }

    /// No watermark at all: nothing was ever synced.
    pub fn none() -> (r: KoboFullTokenDetails)
        ensures
            r == Self::spec_none(),
    {
        KoboFullTokenDetails {
            books_last_modified: None,
            books_last_created: None,
            archive_last_modified: None,
            reading_state_last_modified: None,
            tags_last_modified: None,
        }
    }

    /// Whether every watermark lies in the years 0000 to 9999, so that its
    /// text reads back as itself.
    pub open spec fn is_rfc3339(self) -> bool {
        &&& self.books_last_modified matches Some(t) ==> t.is_rfc3339()
        &&& self.books_last_created matches Some(t) ==> t.is_rfc3339()
        &&& self.archive_last_modified matches Some(t) ==> t.is_rfc3339()
        &&& self.reading_state_last_modified matches Some(t) ==> t.is_rfc3339()
        &&& self.tags_last_modified matches Some(t) ==> t.is_rfc3339()
    }

    /// The instant since which books count as changed: the books watermark,
    /// or the UNIX epoch where there is none.
    pub open spec fn spec_cutoff(self) -> int {
        match self.books_last_modified {
            Some(t) => t@,
            None => 0,
        }
    }

    /// The instant since which books count as changed.
    pub fn cutoff(&self) -> (r: i64)
        ensures
            r == self.spec_cutoff(),
    {
        match self.books_last_modified {
            Some(t) => t.timestamp(),
            None => 0,
        }
    }
}

/// Reads the watermark under `key` from a token document.
fn read_watermark(doc: &serde_json::Value, key: &str) -> (r: Option<UtcInstant>)
    ensures
        r == watermark_of(json_model(*doc), key@),
{
    match get_string(doc, key) {
        Some(text) => UtcInstant::parse_from_rfc3339(text.as_str()),
        None => None,
    }
}

/// Writes the watermark `mark`, if there is one, under `key`.
fn write_watermark(doc: &mut serde_json::Value, key: &str, mark: Option<UtcInstant>)
    requires
        json_model(*old(doc)) is Object,
        is_string_object(json_model(*old(doc))),
    ensures
        json_model(*final(doc)) == Json::Object(
            with_watermark(members_of(json_model(*old(doc))), key@, mark),
        ),
        is_string_object(json_model(*final(doc))),
        mark matches Some(t) ==> (t.is_rfc3339() ==> UtcInstant::of_text(t.text()) == Some(t)),
{
    match mark {
        Some(instant) => {
            let text = instant.to_rfc3339();
            json_set(doc, key, json_string(text.as_str()));
        },
        None => {},
    }
}

impl KoboSyncToken {
    /// The token that a parsed JSON document denotes. Without a store token
    /// the document is no token; a watermark that is missing or does not read
    /// as RFC 3339 is `None`.
    pub fn from_document(doc: &serde_json::Value) -> (r: KoboSyncToken)
        ensures
            r@ == token_of(json_model(*doc)),
    {
        match get_string(doc, "raw_kobo_store_token") {
            None => KoboSyncToken::NoToken,
            Some(raw_kobo_store_token) => {
                let details = KoboFullTokenDetails {
                    books_last_modified: read_watermark(doc, "books_last_modified"),
                    books_last_created: read_watermark(doc, "books_last_created"),
                    archive_last_modified: read_watermark(doc, "archive_last_modified"),
                    reading_state_last_modified: read_watermark(
                        doc,
                        "reading_state_last_modified",
                    ),
                    tags_last_modified: read_watermark(doc, "tags_last_modified"),
                };
                KoboSyncToken::FullToken { raw_kobo_store_token, details }
            },
        }
    }

    /// Reads a token. A text with a `.` in it is the store's own token and is
    /// taken as it stands; any other text has to be base64 of a JSON document.
    pub fn from_request(token: &str) -> (r: Result<KoboSyncToken, TokenDecodeError>)
        ensures
            match r {
                Ok(t) => decoded(token@) == Ok::<SyncTokenView, TokenDecodeError>(t@),
                Err(e) => decoded(token@) == Err::<SyncTokenView, TokenDecodeError>(e),
            },
            token@.contains('.') ==> r is Ok && r->Ok_0@ == (SyncTokenView::OnlyRawToken {
                raw_kobo_store_token: token@,
            }),
    {
        if contains_char(token, '.') {
            return Ok(KoboSyncToken::OnlyRawToken { raw_kobo_store_token: token.to_string() });
        }
        let bytes = match decode_text(token) {
            Some(bytes) => bytes,
            None => {
                return Err(TokenDecodeError::InvalidFormat);
            },
        };
        match parse_json(bytes.as_slice()) {
            Ok(doc) => Ok(Self::from_document(&doc)),
            Err(_) => Err(TokenDecodeError::InvalidJson),
        }
    }

    /// Reads the token header of a request; a request without one has no
    /// token.
    pub fn decode(header: Option<&str>) -> (r: Result<KoboSyncToken, TokenDecodeError>)
        ensures
            match r {
                Ok(t) => decoded_header(header_text(header)) == Ok::<
                    SyncTokenView,
                    TokenDecodeError,
                >(t@),
                Err(e) => decoded_header(header_text(header)) == Err::<
                    SyncTokenView,
                    TokenDecodeError,
                >(e),
            },
            header is None ==> r is Ok && r->Ok_0@ == SyncTokenView::NoToken,
    {
        match header {
            Some(token) => Self::from_request(token),
            None => Ok(KoboSyncToken::NoToken),
        }
    }

    /// The JSON object that stands for a full token: the store token and one
    /// member for each watermark there is.
    pub fn document(raw: &str, details: &KoboFullTokenDetails) -> (doc: serde_json::Value)
        ensures
            json_model(doc) == Json::Object(token_members(raw@, *details)),
            is_string_object(json_model(doc)),
            details.is_rfc3339() ==> token_of(json_model(doc)) == (SyncTokenView::FullToken {
                raw_kobo_store_token: raw@,
                details: *details,
            }),
    {
        let mut doc = json_null();
        json_set(&mut doc, "raw_kobo_store_token", json_string(raw));
        assert(members_of(Json::Null).insert(raw_key(), Json::String(raw@)) =~= Map::<
            Seq<char>,
            Json,
        >::empty().insert(raw_key(), Json::String(raw@)));
        write_watermark(&mut doc, "books_last_modified", details.books_last_modified);
        write_watermark(&mut doc, "books_last_created", details.books_last_created);
        write_watermark(&mut doc, "archive_last_modified", details.archive_last_modified);
        write_watermark(
            &mut doc,
            "reading_state_last_modified",
            details.reading_state_last_modified,
        );
        write_watermark(&mut doc, "tags_last_modified", details.tags_last_modified);
        proof {
            lemma_keys_distinct();
            if details.is_rfc3339() {
                let j = json_model(doc);
                assert(string_member(j, raw_key()) == Some(raw@));
                assert(details_of(j) == *details);
            }
        }
        doc
    }

    /// Writes a full token: base64 of the JSON text of the token. The result
    /// is `None` only where that text is too long to encode. A token whose
    /// watermarks lie in the years 0000 to 9999 reads back as the same token.
    pub fn encode(raw: &str, details: &KoboFullTokenDetails) -> (r: Option<String>)
        ensures
            r.deep_view() == encoded(raw@, *details),
            r matches Some(text) ==> {
                &&& is_encoding_of(text@, raw@, *details)
                &&& !text@.contains('.')
                &&& details.is_rfc3339() ==> decoded(text@) == Ok::<
                    SyncTokenView,
                    TokenDecodeError,
                >(SyncTokenView::FullToken { raw_kobo_store_token: raw@, details: *details })
            },
    {
        let doc = Self::document(raw, details);
        let text = json_to_text(&doc);
        let bytes = text.as_str().as_bytes_vec();
        let r = encode_bytes(&bytes);
        proof {
            if r is Some {
                assert(base64_text(bytes@) == r->0@);
            }
        }
        r
    }

    /// The store's token inside this token; empty where there is no token.
    pub fn raw_token(&self) -> (r: String)
        ensures
            r@ == match self@ {
                SyncTokenView::NoToken => Seq::<char>::empty(),
                SyncTokenView::OnlyRawToken { raw_kobo_store_token } => raw_kobo_store_token,
                SyncTokenView::FullToken { raw_kobo_store_token, .. } => raw_kobo_store_token,
            },
    {
        match self {
            KoboSyncToken::NoToken => String::new(),
            KoboSyncToken::OnlyRawToken { raw_kobo_store_token } => raw_kobo_store_token.clone(),
            KoboSyncToken::FullToken { raw_kobo_store_token, .. } => raw_kobo_store_token.clone(),
        }
    }
}

} // verus!
