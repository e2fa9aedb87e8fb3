//! The library server: the shapes of its answers, and the addresses and
//! parameters of the requests that are put to it.

use vstd::prelude::*;
use vstd::string::*;
use crate::ident::{hyphenated, uuid_to_string};
use crate::text::{
    chars_of, glue, glue3, decimal, i64_to_string, join, joined, parse_i64, parsed_i64,
    signed_decimal, trim, trim_end_matches, trimmed, u64_to_string, without_trailing,
};

verus! {

/// The answer to a status request.
#[derive(Debug, Clone, PartialEq)]
pub struct StatusResponse {
    pub app: Option<String>,
    pub server_version: Option<String>,
    pub is_init: Option<bool>,
}

/// The answer to a request for one item: its identifier, its title, and a
/// JSON object with everything else that the server said of it.
#[derive(Debug)]
pub struct ItemResponse {
    pub id: String,
    pub title: Option<String>,
    pub extra: serde_json::Value,
}

/// A year as the server may write it: as a number or as text.
#[derive(Debug, Clone, PartialEq)]
pub enum NumOrStr {
    Num(i64),
    Str(String),
}

/// The year that the server means: a number as it is, text by the integer
/// that it spells once trimmed, nothing for text that spells none.
pub open spec fn year_of(value: Option<NumOrStr>) -> Option<i64> {
    match value {
        None => None,
        Some(NumOrStr::Num(n)) => Some(n),
        Some(NumOrStr::Str(text)) => parsed_i64(trimmed(text@)),
    }
}

/// Accepts a year from either a number or text like `"2011"`; nothing and
/// text that is no integer give `None`.
pub fn opt_i64_from_str_or_num(value: Option<NumOrStr>) -> (r: Option<i64>)
    ensures
        r == year_of(value),
{
    match value {
        None => None,
        Some(NumOrStr::Num(n)) => Some(n),
        Some(NumOrStr::Str(text)) => {
            let t = trim(text.as_str());
            parse_i64(t.as_str())
        },
    }
}

/// The answer to a request for the libraries.
#[derive(Debug, Clone, PartialEq)]
pub struct LibrariesResponse {
    pub libraries: Vec<Library>,
}

/// One library of the server.
#[derive(Debug, Clone, PartialEq)]
pub struct Library {
    pub id: u128,
    pub name: String,
    pub folders: Vec<LibraryFolder>,
    pub display_order: Option<i64>,
    pub icon: Option<String>,
    pub media_type: Option<String>,
    pub provider: Option<String>,
    pub last_scan_version: Option<Option<String>>,
    pub created_at: Option<i64>,
    pub last_update: Option<i64>,
}

/// A folder that a library reads.
#[derive(Debug, Clone, PartialEq)]
pub struct LibraryFolder {
    pub id: String,
    pub full_path: String,
    pub library_id: String,
    pub added_at: Option<i64>,
}

/// One page of the series of a library.
#[derive(Debug, Clone, PartialEq)]
pub struct LibrarySeriesResponse {
    pub results: Vec<LibrarySeries>,
    pub total: i64,
    pub limit: i64,
    pub page: i64,
    pub sort_desc: bool,
}

/// A series as the server names it.
#[derive(Debug, Clone, PartialEq)]
pub struct LibrarySeries {
    pub id: String,
    pub name: String,
}

/// One page of the items of a library.
#[derive(Debug, Clone, PartialEq)]
pub struct LibraryItemsResponse {
    pub results: Vec<LibraryItem>,
    pub total: i64,
    pub limit: i64,
    pub page: i64,
    pub sort_desc: bool,
    pub media_type: LibraryMediaType,
    pub minified: bool,
    pub collapseseries: bool,
    pub embed: Option<String>,
}

/// What a library holds.
#[derive(Debug, Clone, Copy, PartialEq, Eq, Structural)]
pub enum LibraryMediaType {
    Book,
    Podcast,
}

/// An item of a library. `added_at` and `updated_at` count seconds from the
/// UNIX epoch.
#[derive(Debug, Clone, PartialEq)]
pub struct LibraryItem {
    pub id: u128,
    pub ino: String,
    pub old_library_item_id: Option<String>,
    pub library_id: String,
    pub folder_id: String,
    pub path: String,
    pub rel_path: String,
    pub is_file: bool,
    pub mtime_ms: i64,
    pub ctime_ms: i64,
    pub birthtime_ms: i64,
    pub added_at: i64,
    pub updated_at: i64,
    pub is_missing: bool,
    pub is_invalid: bool,
    pub media_type: String,
    pub media: Media,
    pub num_files: i64,
    pub size: i64,
}

/// The media of an item.
#[derive(Debug, Clone, PartialEq)]
pub struct Media {
    pub id: String,
    pub metadata: BookMetadata,
    pub cover_path: Option<String>,
    pub tags: Vec<String>,
    pub num_tracks: i64,
    pub num_audio_files: i64,
    pub num_chapters: i64,
    pub size: i64,
    pub ebook_format: Option<String>,
}

/// What the server knows of a book.
#[derive(Debug, Clone, PartialEq)]
pub struct BookMetadata {
    pub title: Option<String>,
    pub subtitle: Option<String>,
    pub title_ignore_prefix: Option<String>,
    pub author_name: Option<String>,
    pub author_name_lf: Option<String>,
    pub narrator_name: Option<String>,
    pub series_name: Option<String>,
    pub genres: Vec<String>,
    pub published_year: Option<i64>,
    pub published_date: Option<String>,
    pub publisher: Option<String>,
    pub description: Option<String>,
    pub isbn: Option<String>,
    pub asin: Option<String>,
    pub language: Option<String>,
    pub explicit: Option<bool>,
    pub abridged: Option<bool>,
}

/// A request to the server: where it goes, the header that authorises it and
/// the query parameters.
#[derive(Debug, Clone, PartialEq)]
pub struct AbsRequest {
    pub url: String,
    pub auth: Option<(String, String)>,
    pub query: Vec<(String, String)>,
}

/// The address of a server and the key that opens it.
#[derive(Debug, Clone)]
pub struct AbsClient {
    pub base_url: String,
    pub api_key: Option<String>,
}

/// `base` and `path` with exactly the `/` between them that `path` brings or
/// lacks.
pub open spec fn url_of(base: Seq<char>, path: Seq<char>) -> Seq<char> {
    if path.len() > 0 && path[0] == '/' {
        base + path
    } else {
        base + seq!['/'] + path
    }
}

/// The header that carries the key.
pub open spec fn auth_of(api_key: Option<Seq<char>>) -> Option<(Seq<char>, Seq<char>)> {
    match api_key {
        Some(key) => Some(("Authorization"@, "Bearer "@ + key)),
        None => None,
    }
}

/// The query string for `params`: nothing for none, else `?` and the
/// parameters with `&` between them.
pub open spec fn query_string(params: Seq<Seq<char>>) -> Seq<char> {
    if params.len() == 0 {
        Seq::<char>::empty()
    } else {
        seq!['?'] + joined(params, seq!['&'])
    }
}

/// The parameters of a cover address, in the order in which they are
/// written.
pub open spec fn cover_params(
    size: Option<(u32, u32)>,
    format: Option<Seq<char>>,
    raw: bool,
) -> Seq<Seq<char>> {
    let sized = match size {
        Some((w, h)) => seq!["width="@ + decimal(w as nat), "height="@ + decimal(h as nat)],
        None => Seq::<Seq<char>>::empty(),
    };
    let formatted = match format {
        Some(f) => sized.push("format="@ + f),
        None => sized,
    };
    if raw {
        formatted.push("raw=1"@)
    } else {
        formatted
    }
}

/// The path of the cover of an item.
pub open spec fn cover_path(
    item_id: u128,
    size: Option<(u32, u32)>,
    format: Option<Seq<char>>,
    raw: bool,
) -> Seq<char> {
    "/api/items/"@ + hyphenated(item_id) + "/cover"@ + query_string(cover_params(size, format, raw))
}

/// The parameters of an item address.
pub open spec fn item_params(expanded: bool, embed: Option<Seq<char>>) -> Seq<Seq<char>> {
    let first = if expanded {
        seq!["expanded=1"@]
    } else {
        Seq::<Seq<char>>::empty()
    };
    match embed {
        Some(inc) => first.push("include="@ + inc),
        None => first,
    }
}

/// The path of an item.
pub open spec fn item_path(item_id: Seq<char>, expanded: bool, embed: Option<Seq<char>>) -> Seq<
    char,
> {
    "/api/items/"@ + item_id + query_string(item_params(expanded, embed))
}

/// The text of an optional string slice.
pub open spec fn opt_text(s: Option<&str>) -> Option<Seq<char>> {
    match s {
        Some(t) => Some(t@),
        None => None,
    }
}

/// The parameters of a request for the series of a library.
pub open spec fn series_query(limit: i64, page: Option<i64>, filter: Option<Seq<char>>) -> Seq<
    (Seq<char>, Seq<char>),
> {
    seq![
        ("limit"@, signed_decimal(limit as int)),
        (
            "filter"@,
            match filter {
                Some(f) => f,
                None => Seq::<char>::empty(),
            },
        ),
        (
            "page"@,
            signed_decimal(
                match page {
                    Some(p) => p as int,
                    None => 0,
                },
            ),
        ),
    ]
}

/// The parameters of a request for the items of a library.
pub open spec fn items_query(
    limit: i64,
    page: Option<i64>,
    embed: Option<Seq<char>>,
    filter: Option<Seq<char>>,
) -> Seq<(Seq<char>, Seq<char>)> {
    let base = seq![
        ("limit"@, signed_decimal(limit as int)),
        (
            "page"@,
            signed_decimal(
                match page {
                    Some(p) => p as int,
                    None => 0,
                },
            ),
        ),
    ];
    let included = match embed {
        Some(inc) => base.push(("include"@, inc)),
        None => base,
    };
    match filter {
        Some(f) => included.push(("filter"@, f)),
        None => included,
    }
}

/// Writes the query string for `params`.
fn write_query(params: &Vec<String>) -> (r: String)
    ensures
        r@ == query_string(params.deep_view()),
{
    if params.len() == 0 {
        String::new()
    } else {
        let body = join(params, "&");
        proof {
            reveal_strlit("&");
            reveal_strlit("?");
            assert("&"@ =~= seq!['&']);
            assert("?"@ =~= seq!['?']);
        }
        glue("?", body.as_str())
    }
}

impl AbsClient {
    /// A client for the server at `base_url`, less any `/` at its end, with
    /// no key.
    pub fn new(base_url: &str) -> (r: AbsClient)
        ensures
            r.base_url@ == without_trailing(base_url@, '/'),
            r.api_key is None,
    {
        AbsClient { base_url: trim_end_matches(base_url, '/'), api_key: None }
    }

    /// The same client with `api_key` as its key.
    pub fn with_api_key(self, api_key: String) -> (r: AbsClient)
        ensures
            r.base_url == self.base_url,
            r.api_key == Some(api_key),
    {
        AbsClient { base_url: self.base_url, api_key: Some(api_key) }
    }

    /// The address of `path` on the server.
    pub fn url(&self, path: &str) -> (r: String)
        ensures
            r@ == url_of(self.base_url@, path@),
    {
        let p = chars_of(path);
        if p.len() > 0 && p[0] == '/' {
            glue(self.base_url.as_str(), path)
        } else {
            proof {
                reveal_strlit("/");
                assert("/"@ =~= seq!['/']);
            }
            glue3(self.base_url.as_str(), "/", path)
        }
    }

    /// The header that authorises a request, where the client has a key.
    pub fn auth_header(&self) -> (r: Option<(String, String)>)
        ensures
            r.deep_view() == auth_of(self.api_key.deep_view()),
    {
        match &self.api_key {
            Some(key) => Some((String::from_str("Authorization"), glue("Bearer ", key.as_str()))),
            None => None,
        }
    }

    /// The public address of the cover of an item, at `size` (width and
    /// height) and in `format` where given, unprocessed where `raw`.
    pub fn cover_url(
        &self,
        item_id: u128,
        size: Option<(u32, u32)>,
        format: Option<&str>,
        raw: bool,
    ) -> (r: String)
        ensures
            r@ == url_of(self.base_url@, cover_path(item_id, size, opt_text(format), raw)),
    {
        let id = uuid_to_string(item_id);
        let mut path = glue3("/api/items/", id.as_str(), "/cover");
        let mut q: Vec<String> = Vec::new();
        if let Some((w, h)) = size {
            let width = u64_to_string(w as u64);
            let height = u64_to_string(h as u64);
            q.push(glue("width=", width.as_str()));
            q.push(glue("height=", height.as_str()));
        }
        assert(q.deep_view() =~= cover_params(size, None, false));
        if let Some(f) = format {
            q.push(glue("format=", f));
        }
        assert(q.deep_view() =~= cover_params(size, opt_text(format), false));
        if raw {
            q.push(String::from_str("raw=1"));
        }
        assert(q.deep_view() =~= cover_params(size, opt_text(format), raw));
        let query = write_query(&q);
        path.append(query.as_str());
        self.url(path.as_str())
    }

    /// The request for the status of the server.
    pub fn get_status_request(&self) -> (r: AbsRequest)
        ensures
            r.url@ == url_of(self.base_url@, "/status"@),
            r.auth.deep_view() == auth_of(self.api_key.deep_view()),
            r.query@.len() == 0,
    {
        AbsRequest { url: self.url("/status"), auth: self.auth_header(), query: Vec::new() }
    }

    /// The request for one item, in full where `expanded`, with the parts
    /// that `embed` names.
    pub fn get_item_request(&self, item_id: &str, expanded: bool, embed: Option<&str>) -> (r:
        AbsRequest)
        ensures
            r.url@ == url_of(self.base_url@, item_path(item_id@, expanded, opt_text(embed))),
            r.auth.deep_view() == auth_of(self.api_key.deep_view()),
            r.query@.len() == 0,
    {
        let mut path = glue("/api/items/", item_id);
        let mut q: Vec<String> = Vec::new();
        if expanded {
            q.push(String::from_str("expanded=1"));
        }
        assert(q.deep_view() =~= item_params(expanded, None));
        if let Some(inc) = embed {
            q.push(glue("include=", inc));
        }
        assert(q.deep_view() =~= item_params(expanded, opt_text(embed)));
        let query = write_query(&q);
        path.append(query.as_str());
        AbsRequest { url: self.url(path.as_str()), auth: self.auth_header(), query: Vec::new() }
    }

    /// The request for the libraries of the server.
    pub fn get_libraries_request(&self) -> (r: AbsRequest)
        ensures
            r.url@ == url_of(self.base_url@, "/api/libraries"@),
            r.auth.deep_view() == auth_of(self.api_key.deep_view()),
            r.query@.len() == 0,
    {
        AbsRequest { url: self.url("/api/libraries"), auth: self.auth_header(), query: Vec::new() }
    }

    /// The request for one page of the series of a library. A missing filter
    /// is sent empty, a missing page as page 0.
    pub fn get_library_series_request(
        &self,
        lib_id: &str,
        limit: i64,
        page: Option<i64>,
        filter: Option<&str>,
    ) -> (r: AbsRequest)
        ensures
            r.url@ == url_of(self.base_url@, "/api/libraries/"@ + lib_id@ + "/series"@),
            r.auth.deep_view() == auth_of(self.api_key.deep_view()),
            r.query.deep_view() == series_query(limit, page, opt_text(filter)),
    {
        let path = glue3("/api/libraries/", lib_id, "/series");
        let mut query: Vec<(String, String)> = Vec::new();
        query.push((String::from_str("limit"), i64_to_string(limit)));
        query.push(
            (
                String::from_str("filter"),
                match filter {
                    Some(f) => f.to_string(),
                    None => String::new(),
                },
            ),
        );
        query.push(
            (
                String::from_str("page"),
                i64_to_string(
                    match page {
                        Some(p) => p,
                        None => 0,
                    },
                ),
            ),
        );
        assert(query.deep_view() =~= series_query(limit, page, opt_text(filter)));
        AbsRequest { url: self.url(path.as_str()), auth: self.auth_header(), query }
    }

    /// The request for one page of the items of a library. A missing page is
    /// sent as page 0; `embed` and `filter` are sent only where given.
    pub fn get_library_items_request(
        &self,
        lib_id: u128,
        limit: i64,
        page: Option<i64>,
        embed: Option<&str>,
        filter: Option<&str>,
    ) -> (r: AbsRequest)
        ensures
            r.url@ == url_of(self.base_url@, "/api/libraries/"@ + hyphenated(lib_id) + "/items"@),
            r.auth.deep_view() == auth_of(self.api_key.deep_view()),
            r.query.deep_view() == items_query(limit, page, opt_text(embed), opt_text(filter)),
    {
        let id = uuid_to_string(lib_id);
        let path = glue3("/api/libraries/", id.as_str(), "/items");
        let mut query: Vec<(String, String)> = Vec::new();
        query.push((String::from_str("limit"), i64_to_string(limit)));
        query.push(
            (
                String::from_str("page"),
                i64_to_string(
                    match page {
                        Some(p) => p,
                        None => 0,
                    },
                ),
            ),
        );
        assert(query.deep_view() =~= items_query(limit, page, None, None));
        if let Some(inc) = embed {
            query.push((String::from_str("include"), inc.to_string()));
        }
        assert(query.deep_view() =~= items_query(limit, page, opt_text(embed), None));
        if let Some(f) = filter {
            query.push((String::from_str("filter"), f.to_string()));
        }
        assert(query.deep_view() =~= items_query(
            limit,
            page,
            opt_text(embed),
            opt_text(filter),
        ));
        AbsRequest { url: self.url(path.as_str()), auth: self.auth_header(), query }
    }
}

} // verus!
