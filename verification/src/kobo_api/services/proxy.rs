//! What is put to the store on behalf of a device, and what is made of the
//! store's answer.

use vstd::prelude::*;
use vstd::string::*;
use crate::text::{ascii_lower, decimal, glue, lower_chars, string_of, u64_to_string};

verus! {

/// The address of the store.
pub const KOBO_STOREAPI_URL: &'static str = "https://storeapi.kobo.com";

/// The address of the store's images.
pub const KOBO_IMAGEHOST_URL: &'static str = "https://cdn.kobo.com/book-images";

/// A request to the store: where it goes and the headers it carries.
#[derive(Debug, Clone, PartialEq)]
pub struct StoreRequest {
    pub url: String,
    pub headers: Vec<(String, String)>,
}

/// What came back from the store: the status, the headers, and the
/// entitlements in the body, or why the body could not be read. `U` is an
/// entitlement as the store sends it.
#[derive(Debug)]
pub struct StoreReply<U> {
    pub status: u16,
    pub headers: Vec<(String, String)>,
    pub entitlements: Result<Vec<U>, String>,
}

/// What the store answers to a sync request: its entitlements and its four
/// sync headers. A missing token header counts as the empty token.
#[derive(Debug)]
pub struct StoreResponse<U> {
    pub entitlements: Vec<U>,
    pub sync_token: String,
    pub sync: Option<String>,
    pub sync_mode: Option<String>,
    pub recent_reads: Option<String>,
}

/// Whether the header is called `name`, which is in lower case; the case of
/// the header's own name does not count.
pub open spec fn is_named(header: (String, String), name: Seq<char>) -> bool {
    ascii_lower(header.0@) == name
}

/// Whether the header is one that is not passed on to the store: the host,
/// which names this server, and the sync token, which is rewritten.
pub open spec fn is_replaced(header: (String, String)) -> bool {
    is_named(header, "host"@) || is_named(header, "x-kobo-synctoken"@)
}

/// The headers of a device that are passed on to the store, in order.
pub open spec fn passed_on(headers: Seq<(String, String)>) -> Seq<(Seq<char>, Seq<char>)>
    decreases headers.len(),
{
    if headers.len() == 0 {
        Seq::empty()
    } else {
        let before = passed_on(headers.drop_last());
        if is_replaced(headers.last()) {
            before
        } else {
            before.push((headers.last().0@, headers.last().1@))
        }
    }
}

/// The headers of the request to the store: those of the device that are
/// passed on, then the sync token.
pub open spec fn store_headers(headers: Seq<(String, String)>, sync_token: Seq<char>) -> Seq<
    (Seq<char>, Seq<char>),
> {
    passed_on(headers).push(("x-kobo-synctoken"@, sync_token))
}

/// The value of the first header called `name`.
pub open spec fn header_value(headers: Seq<(String, String)>, name: Seq<char>) -> Option<
    Seq<char>,
>
    decreases headers.len(),
{
    if headers.len() == 0 {
        None
    } else if is_named(headers.first(), name) {
        Some(headers.first().1@)
    } else {
        header_value(headers.drop_first(), name)
    }
}

/// Whether the pair is a header called `name`, which is in lower case.
pub open spec fn names(header: (Seq<char>, Seq<char>), name: Seq<char>) -> bool {
    ascii_lower(header.0) == name
}

/// The store never sees the host or the sync token that the device sent: of
/// the headers of a request to the store none names the host, and the one that
/// names the sync token is the last, with the token that was put in.
pub proof fn lemma_store_headers_are_rewritten(
    headers: Seq<(String, String)>,
    sync_token: Seq<char>,
)
    ensures
        store_headers(headers, sync_token).len() == passed_on(headers).len() + 1,
        store_headers(headers, sync_token).last() == ("x-kobo-synctoken"@, sync_token),
        forall|k: int|
            0 <= k < passed_on(headers).len() ==> !names(
                #[trigger] store_headers(headers, sync_token)[k],
                "host"@,
            ) && !names(store_headers(headers, sync_token)[k], "x-kobo-synctoken"@),
        !names(store_headers(headers, sync_token).last(), "host"@),
    decreases headers.len(),
{
    reveal_strlit("host");
    reveal_strlit("x-kobo-synctoken");
    assert(ascii_lower("x-kobo-synctoken"@).len() != "host"@.len());
    if headers.len() > 0 {
        lemma_store_headers_are_rewritten(headers.drop_last(), sync_token);
        let before = passed_on(headers.drop_last());
        assert forall|k: int| 0 <= k < passed_on(headers).len() implies !names(
            #[trigger] store_headers(headers, sync_token)[k],
            "host"@,
        ) && !names(store_headers(headers, sync_token)[k], "x-kobo-synctoken"@) by {
            if k < before.len() {
                assert(store_headers(headers, sync_token)[k] == store_headers(
                    headers.drop_last(),
                    sync_token,
                )[k]);
            }
        }
    }
}

/// Whether a status tells of success.
pub open spec fn is_success(status: u16) -> bool {
    200 <= status < 300
}

/// Why a reply of the store is no answer; `None` where it is one.
pub open spec fn reply_error<U>(reply: StoreReply<U>) -> Option<Seq<char>> {
    if !is_success(reply.status) {
        Some(
            "Failed to send sync request: store answered with status "@ + decimal(
                reply.status as nat,
            ),
        )
    } else {
        match reply.entitlements {
            Err(e) => Some("Failed to parse response JSON: "@ + e@),
            Ok(_) => None,
        }
    }
}

/// Whether `response` is what a good `reply` says: its entitlements, and
/// its four sync headers as they came.
pub open spec fn is_response_of<U>(response: StoreResponse<U>, reply: StoreReply<U>) -> bool {
    &&& reply.entitlements == Ok::<Vec<U>, String>(response.entitlements)
    &&& response.sync_token@ == match header_value(reply.headers@, "x-kobo-synctoken"@) {
        Some(token) => token,
        None => Seq::empty(),
    }
    &&& response.sync.deep_view() == header_value(reply.headers@, "x-kobo-sync"@)
    &&& response.sync_mode.deep_view() == header_value(reply.headers@, "x-kobo-sync-mode"@)
    &&& response.recent_reads.deep_view() == header_value(reply.headers@, "x-kobo-recent-reads"@)
}

/// Whether the header is called `name`, which is in lower case.
pub fn header_is_named(header: &(String, String), name: &str) -> (r: bool)
    ensures
        r == is_named(*header, name@),
{
    let lower = lower_chars(header.0.as_str());
    let n = lower.len();
    assert(lower@.subrange(0, n as int) =~= lower@);
    let text = string_of(&lower, 0, n);
    crate::text::str_eq(text.as_str(), name)
}

/// The value of the first header called `name`, which is in lower case.
pub fn find_header(headers: &Vec<(String, String)>, name: &str) -> (r: Option<String>)
    ensures
        r.deep_view() == header_value(headers@, name@),
{
    let mut i: usize = 0;
    assert(headers@.skip(0) =~= headers@);
    while i < headers.len()
        invariant
            i <= headers@.len(),
            header_value(headers@, name@) == header_value(headers@.skip(i as int), name@),
        decreases headers.len() - i,
    {
        proof {
            let rest = headers@.skip(i as int);
            assert(rest.first() == headers@[i as int]);
            assert(rest.drop_first() =~= headers@.skip(i + 1));
        }
        if header_is_named(&headers[i], name) {
            return Some(headers[i].1.clone());
        }
        i = i + 1;
    }
    None
}

/// The request that puts the sync request of a device to the store: the
/// headers of the device are passed on, but for the host and the sync token,
/// and `sync_token` is sent as the sync token.
pub fn store_request(headers: &Vec<(String, String)>, sync_token: &str) -> (r: StoreRequest)
    ensures
        r.url@ == "https://storeapi.kobo.com"@ + "/v1/library/sync"@,
        r.headers.deep_view() == store_headers(headers@, sync_token@),
{
    let mut out: Vec<(String, String)> = Vec::new();
    let mut i: usize = 0;
    while i < headers.len()
        invariant
            i <= headers@.len(),
            out.deep_view() == passed_on(headers@.take(i as int)),
        decreases headers.len() - i,
    {
        proof {
            let upto = headers@.take(i + 1);
            assert(upto.last() == headers@[i as int]);
            assert(upto.drop_last() =~= headers@.take(i as int));
        }
        let replaced = header_is_named(&headers[i], "host") || header_is_named(
            &headers[i],
            "x-kobo-synctoken",
        );
        if !replaced {
            let ghost before = out.deep_view();
            out.push((headers[i].0.clone(), headers[i].1.clone()));
            assert(out.deep_view() =~= before.push((headers@[i as int].0@, headers@[i as int].1@)));
        }
        i = i + 1;
    }
    assert(headers@.take(headers@.len() as int) =~= headers@);
    let ghost before = out.deep_view();
    out.push((String::from_str("x-kobo-synctoken"), sync_token.to_string()));
    assert(out.deep_view() =~= before.push(("x-kobo-synctoken"@, sync_token@)));
    StoreRequest { url: glue("https://storeapi.kobo.com", "/v1/library/sync"), headers: out }
}

/// What a reply of the store says. A status that does not tell of success,
/// and a body that could not be read, make the reply a failure; else the
/// four sync headers are taken as they came.
pub fn store_answer<U>(reply: StoreReply<U>) -> (r: Result<StoreResponse<U>, String>)
    ensures
        match r {
            Ok(response) => reply_error(reply) is None && is_response_of(response, reply),
            Err(message) => reply_error(reply) == Some(message@),
        },
{
    if !(200 <= reply.status && reply.status < 300) {
        let status = u64_to_string(reply.status as u64);
        return Err(
            glue("Failed to send sync request: store answered with status ", status.as_str()),
        );
    }
    let sync_token = match find_header(&reply.headers, "x-kobo-synctoken") {
        Some(token) => token,
        None => String::new(),
    };
    let sync = find_header(&reply.headers, "x-kobo-sync");
    let sync_mode = find_header(&reply.headers, "x-kobo-sync-mode");
    let recent_reads = find_header(&reply.headers, "x-kobo-recent-reads");
    match reply.entitlements {
        Ok(entitlements) => Ok(
            StoreResponse { entitlements, sync_token, sync, sync_mode, recent_reads },
        ),
        Err(e) => Err(glue("Failed to parse response JSON: ", e.as_str())),
    }
}

} // verus!
