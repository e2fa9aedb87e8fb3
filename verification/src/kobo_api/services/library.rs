//! The libraries of the server and their items, as they are listed.

use vstd::prelude::*;
use vstd::string::*;
use crate::abs_client::{
    auth_of, cover_path, items_query, opt_text, url_of, AbsClient, AbsRequest, LibrariesResponse,
    Library, LibraryItem, LibraryItemsResponse,
};
use crate::ident::hyphenated;
use crate::kobo_api::models::{
    ErrorDto, LibraryDto, LibraryItemDto, LibraryItemsResponseDto, LibraryListResponse,
};
use crate::text::{clone_opt_string, glue};

verus! {

/// The number of items on a page where none is asked for.
pub const DEFAULT_PAGE_LIMIT: i64 = 50;

/// Lists the libraries of the server and their items.
pub struct LibraryService<'a> {
    pub client: &'a AbsClient,
}

/// Whether `dto` lists `library`.
pub open spec fn lists_library(dto: LibraryDto, library: Library) -> bool {
    &&& dto.id == library.id
    &&& dto.name@ == library.name@
    &&& dto.media_type.deep_view() == library.media_type.deep_view()
}

/// The text of an optional string; `fallback` where there is none.
pub open spec fn text_or(value: Option<String>, fallback: Seq<char>) -> Seq<char> {
    match value {
        Some(text) => text@,
        None => fallback,
    }
}

/// Whether `dto` lists `item` of the server at `base`: by its title, author
/// and series, each with a stand-in where the item has none, the public
/// address of its cover, and the form of its ebook.
pub open spec fn lists_item(dto: LibraryItemDto, item: LibraryItem, base: Seq<char>) -> bool {
    &&& dto.id == item.id
    &&& dto.title@ == text_or(item.media.metadata.title, "Unknown Title"@)
    &&& dto.author.deep_view() == Some(text_or(item.media.metadata.author_name, "Unknown Author"@))
    &&& dto.series.deep_view() == Some(text_or(item.media.metadata.series_name, "Unknown Series"@))
    &&& dto.cover_url.deep_view() == Some(url_of(base, cover_path(item.id, None, None, false)))
    &&& dto.ebook_format.deep_view() == item.media.ebook_format.deep_view()
}

/// A copy of an optional string, or `fallback` where there is none.
fn string_or(value: &Option<String>, fallback: &str) -> (r: String)
    ensures
        r@ == text_or(*value, fallback@),
{
    match value {
        Some(text) => text.clone(),
        None => fallback.to_string(),
    }
}

impl<'a> LibraryService<'a> {
    /// The service on top of `client`.
    pub fn new(client: &'a AbsClient) -> (r: Self)
        ensures
            r.client == client,
    {
        Self { client }
    }

    /// The list of the libraries that the server answered with, or the error
    /// that it failed with.
    pub fn list_libraries(&self, answer: Result<LibrariesResponse, String>) -> (r:
        LibraryListResponse)
        ensures
            match answer {
                Ok(libs) => r matches LibraryListResponse::Success(dtos) && dtos@.len()
                    == libs.libraries@.len() && forall|k: int|
                    0 <= k < dtos@.len() ==> lists_library(#[trigger] dtos@[k], libs.libraries@[k]),
                Err(e) => r matches LibraryListResponse::BadGateway(error) && error.message@
                    == "ABS error: "@ + e@,
            },
    {
        match answer {
            Ok(libs) => {
                let mut dtos: Vec<LibraryDto> = Vec::new();
                let mut i: usize = 0;
                while i < libs.libraries.len()
                    invariant
                        i <= libs.libraries@.len(),
                        dtos@.len() == i,
                        forall|k: int|
                            0 <= k < i ==> lists_library(#[trigger] dtos@[k], libs.libraries@[k]),
                    decreases libs.libraries.len() - i,
                {
                    let l = &libs.libraries[i];
                    dtos.push(
                        LibraryDto {
                            id: l.id,
                            name: l.name.clone(),
                            media_type: clone_opt_string(&l.media_type),
                        },
                    );
                    i = i + 1;
                }
                LibraryListResponse::Success(dtos)
            },
            Err(e) => LibraryListResponse::BadGateway(
                ErrorDto { message: glue("ABS error: ", e.as_str()) },
            ),
        }
    }

    /// The request that asks the server for a page of the items of a
    /// library, of `DEFAULT_PAGE_LIMIT` items where no limit is given.
    pub fn list_library_items_request(
        &self,
        library_id: u128,
        limit: Option<i64>,
        page: Option<i64>,
        embed: Option<&str>,
        filter: Option<&str>,
    ) -> (r: AbsRequest)
        ensures
            r.url@ == url_of(
                self.client.base_url@,
                "/api/libraries/"@ + hyphenated(library_id) + "/items"@,
            ),
            r.auth.deep_view() == auth_of(self.client.api_key.deep_view()),
            r.query.deep_view() == items_query(
                match limit {
                    Some(n) => n,
                    None => DEFAULT_PAGE_LIMIT,
                },
                page,
                opt_text(embed),
                opt_text(filter),
            ),
    {
        let limit = match limit {
            Some(n) => n,
            None => DEFAULT_PAGE_LIMIT,
        };
        self.client.get_library_items_request(library_id, limit, page, embed, filter)
    }

    /// The list of the items that the server answered with, or the error
    /// that it failed with.
    pub fn list_library_items(&self, answer: Result<LibraryItemsResponse, String>) -> (r:
        LibraryItemsResponseDto)
        ensures
            match answer {
                Ok(items) => r matches LibraryItemsResponseDto::Success(dtos) && dtos@.len()
                    == items.results@.len() && forall|k: int|
                    0 <= k < dtos@.len() ==> lists_item(
                        #[trigger] dtos@[k],
                        items.results@[k],
                        self.client.base_url@,
                    ),
                Err(e) => r matches LibraryItemsResponseDto::BadGateway(error) && error.message@
                    == "ABS error: "@ + e@,
            },
    {
        match answer {
            Ok(items) => {
                let mut dtos: Vec<LibraryItemDto> = Vec::new();
                let mut i: usize = 0;
                while i < items.results.len()
                    invariant
                        i <= items.results@.len(),
                        dtos@.len() == i,
                        forall|k: int|
                            0 <= k < i ==> lists_item(
                                #[trigger] dtos@[k],
                                items.results@[k],
                                self.client.base_url@,
                            ),
                    decreases items.results.len() - i,
                {
                    let it = &items.results[i];
                    let dto = LibraryItemDto {
                        id: it.id,
                        title: string_or(&it.media.metadata.title, "Unknown Title"),
                        author: Some(string_or(&it.media.metadata.author_name, "Unknown Author")),
                        series: Some(string_or(&it.media.metadata.series_name, "Unknown Series")),
                        cover_url: Some(self.client.cover_url(it.id, None, None, false)),
                        ebook_format: clone_opt_string(&it.media.ebook_format),
                    };
                    assert(lists_item(dto, *it, self.client.base_url@));
                    dtos.push(dto);
                    i = i + 1;
                }
                LibraryItemsResponseDto::Success(dtos)
            },
            Err(e) => LibraryItemsResponseDto::BadGateway(
                ErrorDto { message: glue("ABS error: ", e.as_str()) },
            ),
        }
    }
}

} // verus!
