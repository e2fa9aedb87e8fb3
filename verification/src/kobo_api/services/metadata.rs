//! What is known of one book.

use vstd::prelude::*;
use vstd::string::*;
use crate::abs_client::{item_path, url_of, AbsClient, AbsRequest, ItemResponse};
use crate::ident::{hyphenated, uuid_to_string};
use crate::kobo_api::models::{ErrorDto, MetadataResponseDto};
use crate::text::glue;

verus! {

/// Answers for the metadata of one book.
pub struct MetadataService<'a> {
    pub client: &'a AbsClient,
}

/// The key among what the look-up of a key gave, if it gave one.
pub open spec fn key_of(api_key: Result<Option<String>, String>) -> Option<Seq<char>> {
    match api_key {
        Ok(Some(key)) => Some(key@),
        _ => None,
    }
}

impl<'a> MetadataService<'a> {
    /// The service on top of `client`.
    pub fn new(client: &'a AbsClient) -> (r: Self)
        ensures
            r.client == client,
    {
        Self { client }
    }

    /// The request that asks the library server for the item `book_uuid`
    /// with the key that was found for the device. Where none was found, or
    /// the look-up failed, the device is turned away.
    pub fn item_request(&self, book_uuid: u128, api_key: Result<Option<String>, String>) -> (r:
        Result<AbsRequest, MetadataResponseDto>)
        ensures
            match key_of(api_key) {
                Some(key) => r matches Ok(request) && request.url@ == url_of(
                    self.client.base_url@,
                    item_path(hyphenated(book_uuid), false, None),
                ) && request.auth.deep_view() == Some(("Authorization"@, "Bearer "@ + key))
                    && request.query@.len() == 0,
                None => r matches Err(MetadataResponseDto::Unauthorized(e)) && e.message@
                    == "Invalid auth token"@,
            },
    {
        match api_key {
            Ok(Some(key)) => {
                let id = uuid_to_string(book_uuid);
                let request = self.client.get_item_request(id.as_str(), false, None);
                Ok(
                    AbsRequest {
                        url: request.url,
                        auth: Some(
                            (String::from_str("Authorization"), glue("Bearer ", key.as_str())),
                        ),
                        query: request.query,
                    },
                )
            },
            _ => Err(MetadataResponseDto::Unauthorized(ErrorDto::of("Invalid auth token"))),
        }
    }

    /// The answer for an item that the library server does not have. For an
    /// item that it has, nothing is decided here.
    pub fn get_metadata(&self, item: &Result<ItemResponse, String>) -> (r: Option<
        MetadataResponseDto,
    >)
        ensures
            match *item {
                Ok(_) => r is None,
                Err(_) => r matches Some(MetadataResponseDto::NotFound(e)) && e.message@
                    == "Item not found"@,
            },
    {
        match item {
            Ok(_) => None,
            Err(_) => Some(MetadataResponseDto::NotFound(ErrorDto::of("Item not found"))),
        }
    }
}

} // verus!
