//! How far a book has been read.

use vstd::prelude::*;
use vstd::string::*;
use crate::abs_client::AbsClient;
use crate::ident::{uuid_parse, uuid_parsed};
use crate::json::{
    json_array, json_as_array, json_get, json_is_number, json_model, json_null, json_set,
    json_string, member, Json,
};
use crate::kobo_api::models::{ErrorDto, ReadingStateGetResponseDto, ReadingStatePutResponseDto};

verus! {

/// Answers for reading states.
pub struct ReadingService<'a> {
    pub client: &'a AbsClient,
}

/// The reading state of the book `book_uuid`.
pub open spec fn reading_state(book_uuid: Seq<char>) -> Json {
    Json::Object(Map::<Seq<char>, Json>::empty().insert("EntitlementId"@, Json::String(book_uuid)))
}

/// The first of the reading states that an update brings.
pub open spec fn first_reading_state(payload: Json) -> Option<Json> {
    match member(payload, "ReadingStates"@) {
        Some(Json::Array(states)) => if states.len() > 0 {
            Some(states[0])
        } else {
            None
        },
        _ => None,
    }
}

/// The bookmark of the first reading state that an update brings.
pub open spec fn current_bookmark(payload: Json) -> Option<Json> {
    match first_reading_state(payload) {
        Some(state) => member(state, "CurrentBookmark"@),
        None => None,
    }
}

/// Whether an update says where in the book the reader is, and how far
/// through it as a number.
pub open spec fn is_complete_update(payload: Json) -> bool {
    current_bookmark(payload) matches Some(bookmark) && member(bookmark, "Location"@) is Some
        && member(bookmark, "ContentSourceProgressPercent"@) matches Some(Json::Number(_))
}

/// A result with the given word.
pub open spec fn result_of(word: Seq<char>) -> Json {
    Json::Object(Map::<Seq<char>, Json>::empty().insert("Result"@, Json::String(word)))
}

/// What is answered to an update that was taken.
pub open spec fn update_result(book_uuid: Seq<char>) -> Json {
    Json::Object(
        Map::<Seq<char>, Json>::empty().insert("RequestResult"@, Json::String("Success"@)).insert(
            "UpdateResults"@,
            Json::Array(
                seq![
                    Json::Object(
                        Map::<Seq<char>, Json>::empty().insert(
                            "EntitlementId"@,
                            Json::String(book_uuid),
                        ).insert("CurrentBookmarkResult"@, result_of("Success"@)).insert(
                            "StatisticsResult"@,
                            result_of("Ignored"@),
                        ).insert("StatusInfoResult"@, result_of("Success"@)),
                    ),
                ],
            ),
        ),
    )
}

/// A result with the given word.
fn make_result(word: &str) -> (r: serde_json::Value)
    ensures
        json_model(r) == result_of(word@),
{
    let mut doc = json_null();
    json_set(&mut doc, "Result", json_string(word));
    doc
}

/// Whether an update says where in the book the reader is, and how far
/// through it.
pub fn update_is_complete(payload: &serde_json::Value) -> (r: bool)
    ensures
        r == is_complete_update(json_model(*payload)),
{
    let states = match json_get(payload, "ReadingStates") {
        Some(value) => match json_as_array(value) {
            Some(states) => states,
            None => {
                return false;
            },
        },
        None => {
            return false;
        },
    };
    if states.len() == 0 {
        return false;
    }
    let first = &states[0];
    let bookmark = match json_get(first, "CurrentBookmark") {
        Some(bookmark) => bookmark,
        None => {
            return false;
        },
    };
    let has_location = json_get(bookmark, "Location").is_some();
    let has_progress = match json_get(bookmark, "ContentSourceProgressPercent") {
        Some(progress) => json_is_number(progress),
        None => false,
    };
    has_location && has_progress
}

impl<'a> ReadingService<'a> {
    /// The service on top of `client`.
    pub fn new(client: &'a AbsClient) -> (r: Self)
        ensures
            r.client == client,
    {
        Self { client }
    }

    /// The reading state of a book: one state, for the book that was asked
    /// for. A `book_uuid` that is no identifier is not found.
    pub fn get_state(&self, book_uuid: &str) -> (r: ReadingStateGetResponseDto)
        ensures
            match uuid_parsed(book_uuid@) {
                Some(_) => r matches ReadingStateGetResponseDto::Success(states) && states@.len()
                    == 1 && json_model(states@[0]) == reading_state(book_uuid@),
                None => r matches ReadingStateGetResponseDto::NotFound(e) && e.message@
                    == "Invalid book UUID"@,
            },
    {
        if uuid_parse(book_uuid).is_none() {
            return ReadingStateGetResponseDto::NotFound(ErrorDto::of("Invalid book UUID"));
        }
        let mut state = json_null();
        json_set(&mut state, "EntitlementId", json_string(book_uuid));
        let mut states: Vec<serde_json::Value> = Vec::new();
        states.push(state);
        ReadingStateGetResponseDto::Success(states)
    }

    /// Takes an update of the reading state of a book. The book has to be
    /// named by an identifier, and the update has to say where the reader is
    /// and how far through the book.
    pub fn update_state(&self, book_uuid: &str, payload: serde_json::Value) -> (r:
        ReadingStatePutResponseDto)
        ensures
            match uuid_parsed(book_uuid@) {
                None => r matches ReadingStatePutResponseDto::BadRequest(e) && e.message@
                    == "Invalid book UUID"@,
                Some(_) => if is_complete_update(json_model(payload)) {
                    r matches ReadingStatePutResponseDto::Success(doc) && json_model(doc)
                        == update_result(book_uuid@)
                } else {
                    r matches ReadingStatePutResponseDto::BadRequest(e) && e.message@
                        == "Missing Location or ContentSourceProgressPercent"@
                },
            },
    {
        if uuid_parse(book_uuid).is_none() {
            return ReadingStatePutResponseDto::BadRequest(ErrorDto::of("Invalid book UUID"));
        }
        if !update_is_complete(&payload) {
            return ReadingStatePutResponseDto::BadRequest(
                ErrorDto::of("Missing Location or ContentSourceProgressPercent"),
            );
        }
        let mut entry = json_null();
        json_set(&mut entry, "EntitlementId", json_string(book_uuid));
        json_set(&mut entry, "CurrentBookmarkResult", make_result("Success"));
        json_set(&mut entry, "StatisticsResult", make_result("Ignored"));
        json_set(&mut entry, "StatusInfoResult", make_result("Success"));
        let mut entries: Vec<serde_json::Value> = Vec::new();
        entries.push(entry);
        let ghost items = entries@.map_values(|item: serde_json::Value| json_model(item));
        assert(items =~= seq![json_model(entry)]);
        let mut doc = json_null();
        json_set(&mut doc, "RequestResult", json_string("Success"));
        json_set(&mut doc, "UpdateResults", json_array(entries));
        assert(json_model(doc) == update_result(book_uuid@));
        ReadingStatePutResponseDto::Success(doc)
    }
}

} // verus!
