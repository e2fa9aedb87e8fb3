//! What the endpoints answer with.

pub mod kobo;

use vstd::prelude::*;
use vstd::string::*;
use crate::kobo_api::models::kobo::{BookMetadata, KoboSyncEntitlement};
use crate::text::str_eq;

verus! {

/// A library, as listed.
#[derive(Debug, Clone, PartialEq)]
pub struct LibraryDto {
    pub id: u128,
    pub name: String,
    pub media_type: Option<String>,
}

/// An item of a library, as listed.
#[derive(Debug, Clone, PartialEq)]
pub struct LibraryItemDto {
    pub id: u128,
    pub title: String,
    pub author: Option<String>,
    pub series: Option<String>,
    pub cover_url: Option<String>,
    pub ebook_format: Option<String>,
}

/// An error, in words.
#[derive(Debug, Clone, PartialEq)]
pub struct ErrorDto {
    /// Human-readable error message
    pub message: String,
}

impl ErrorDto {
    /// The error with the literal message `message`.
    pub fn of(message: &str) -> (r: ErrorDto)
        ensures
            r.message@ == message@,
    {
        ErrorDto { message: message.to_string() }
    }
}

impl From<String> for ErrorDto {
    fn from(message: String) -> (r: ErrorDto) {
        ErrorDto { message }
    }
}

impl vstd::std_specs::convert::FromSpecImpl<String> for ErrorDto {
    open spec fn obeys_from_spec() -> bool {
        true
    }

    open spec fn from_spec(message: String) -> ErrorDto {
        ErrorDto { message }
    }
}

/// The answer to a request for the libraries.
#[derive(Debug)]
pub enum LibraryListResponse {
    /// Libraries successfully retrieved
    Success(Vec<LibraryDto>),
    /// The library server failed
    BadGateway(ErrorDto),
}

/// The answer to a request for the items of a library.
#[derive(Debug)]
pub enum LibraryItemsResponseDto {
    /// Items successfully retrieved
    Success(Vec<LibraryItemDto>),
    /// The library server failed
    BadGateway(ErrorDto),
}

/// One entitlement of a sync answer: one made here, or one that the store
/// sent, which is handed on as it came.
#[derive(Debug)]
pub enum SyncedEntitlement<U> {
    Local(KoboSyncEntitlement),
    Store(U),
}

/// The answer to a sync request. `U` is an entitlement as the store sends it.
#[derive(Debug)]
pub enum SyncResponseDto<U> {
    /// The changes, ours before the store's, and the four sync headers:
    /// the token for the next request, whether more is to come, the sync mode
    /// and the recent-reads flag.
    Success {
        entitlements: Vec<SyncedEntitlement<U>>,
        sync_token: String,
        sync: Option<String>,
        sync_mode: Option<String>,
        recent_reads: Option<String>,
    },
    /// The request carried no token
    Unauthorized(ErrorDto),
    /// The token could not be read
    Forbidden(ErrorDto),
    /// The library server or the store failed
    BadGateway(ErrorDto),
}

impl<U> SyncResponseDto<U> {
    /// The HTTP status that goes with the answer.
    pub open spec fn spec_status(&self) -> u16 {
        match self {
            SyncResponseDto::Success { .. } => 200,
            SyncResponseDto::Unauthorized(_) => 401,
            SyncResponseDto::Forbidden(_) => 403,
            SyncResponseDto::BadGateway(_) => 502,
        }
    }

    /// The HTTP status that goes with the answer.
    pub fn status(&self) -> (r: u16)
        ensures
            r == self.spec_status(),
    {
        match self {
            SyncResponseDto::Success { .. } => 200,
            SyncResponseDto::Unauthorized(_) => 401,
            SyncResponseDto::Forbidden(_) => 403,
            SyncResponseDto::BadGateway(_) => 502,
        }
    }

    /// The number of entitlements in the answer: none unless it is a success.
    pub open spec fn spec_entitlement_count(&self) -> nat {
        match self {
            SyncResponseDto::Success { entitlements, .. } => entitlements@.len(),
            _ => 0,
        }
    }

    /// The number of entitlements in the answer.
    pub fn entitlement_count(&self) -> (r: usize)
        ensures
            r == self.spec_entitlement_count(),
    {
        match self {
            SyncResponseDto::Success { entitlements, .. } => entitlements.len(),
            _ => 0,
        }
    }
}

/// The answer to a request for the metadata of a book.
#[derive(Debug)]
pub enum MetadataResponseDto {
    Success(BookMetadata),
    Unauthorized(ErrorDto),
    /// Not found or upstream error
    NotFound(ErrorDto),
}

/// The answer to a request for a reading state.
#[derive(Debug)]
pub enum ReadingStateGetResponseDto {
    /// One reading state object wrapped in an array
    Success(Vec<serde_json::Value>),
    NotFound(ErrorDto),
}

/// The answer to an update of a reading state.
#[derive(Debug)]
pub enum ReadingStatePutResponseDto {
    /// Update result object
    Success(serde_json::Value),
    BadRequest(ErrorDto),
}

/// An item of a shelf.
#[derive(Debug, Clone, PartialEq)]
pub struct TagItemDto {
    pub item_type: Option<String>,
    pub revision_id: Option<u128>,
}

/// The request to make a shelf.
#[derive(Debug, Clone, PartialEq)]
pub struct TagCreateRequestDto {
    pub name: String,
    pub items: Option<Vec<TagItemDto>>,
}

/// The request to add items to a shelf, or to take them off.
#[derive(Debug, Clone, PartialEq)]
pub struct TagItemsRequestDto {
    pub items: Vec<TagItemDto>,
}

/// The answer to a request to make a shelf.
#[derive(Debug, Clone, PartialEq)]
pub enum TagCreateResponseDto {
    /// Created with tag id returned as JSON string
    Created(String),
    BadRequest(ErrorDto),
}

/// Empty 200 response
#[derive(Debug, Clone, Copy, PartialEq, Eq, Structural)]
pub enum EmptyOkResponseDto {
    Success,
}

/// Empty 204 response
#[derive(Debug, Clone, Copy, PartialEq, Eq, Structural)]
pub enum NoContentResponseDto {
    NoContent,
}

/// The answer to an initialization request.
#[derive(Debug)]
pub enum InitializationResponseDto {
    /// Initialization resources
    Success(serde_json::Value),
}

/// The answer to a device that authenticates.
#[derive(Debug)]
pub enum DeviceAuthResponseDto {
    /// Synthetic device auth result
    Success(serde_json::Value),
}

/// Feature not implemented yet
#[derive(Debug, Clone, PartialEq)]
pub enum NotImplementedResponseDto {
    NotImplemented(ErrorDto),
}

/// The forms in which a book can be handed to a device.
#[derive(Debug, Clone, Copy, PartialEq, Eq, Structural)]
pub enum BookFormatDto {
    Epub,
    Kepub,
}

impl BookFormatDto {
    /// The name of the format.
    pub open spec fn spec_name(self) -> Seq<char> {
        match self {
            BookFormatDto::Epub => "epub"@,
            BookFormatDto::Kepub => "kepub"@,
        }
    }

    /// The format that `name` names, if any.
    pub open spec fn spec_from_name(name: Seq<char>) -> Option<BookFormatDto> {
        if name == "epub"@ {
            Some(BookFormatDto::Epub)
        } else if name == "kepub"@ {
            Some(BookFormatDto::Kepub)
        } else {
            None
        }
    }

    /// The name of the format: `epub` or `kepub`.
    pub fn to_string(&self) -> (r: String)
        ensures
            r@ == self.spec_name(),
    {
        match self {
            BookFormatDto::Epub => String::from_str("epub"),
            BookFormatDto::Kepub => String::from_str("kepub"),
        }
    }

    /// The format that `name` names, if any.
    pub fn from_name(name: &str) -> (r: Option<BookFormatDto>)
        ensures
            r == Self::spec_from_name(name@),
    {
        if str_eq(name, "epub") {
            Some(BookFormatDto::Epub)
        } else if str_eq(name, "kepub") {
            Some(BookFormatDto::Kepub)
        } else {
            None
        }
    }
}

} // verus!
