//! From the answers of the library server to books.

use vstd::prelude::*;
use vstd::string::*;
use crate::abs_client::{ItemResponse, LibrarySeries};
use crate::domain::models::{Book, FileKind, FileKindView, FileRef, SeriesRef};
use crate::json::{json_as_array, json_get, json_model, member, string_member, get_string, Json};
use crate::text::{
    ascii_lower, glue3, ends_with, has_suffix, lower_chars, string_of, trim_end_matches,
    without_trailing,
};

verus! {

/// The series that the server names.
pub fn map_series(s: &LibrarySeries) -> (r: SeriesRef)
    ensures
        r.id@ == s.id@,
        r.name@ == s.name@,
{
    SeriesRef { id: s.id.clone(), name: s.name.clone() }
}

/// The kind of the file called `name`, by the ending of the name in lower
/// case; a name with an ending that is not known is kept, in lower case.
pub open spec fn file_kind_of(name: Seq<char>) -> FileKindView {
    let lower = ascii_lower(name);
    if ends_with(lower, ".epub"@) {
        FileKindView::Epub
    } else if ends_with(lower, ".pdf"@) {
        FileKindView::Pdf
    } else if ends_with(lower, ".m4b"@) {
        FileKindView::M4b
    } else if ends_with(lower, ".mp3"@) {
        FileKindView::Mp3
    } else {
        FileKindView::Unknown(lower)
    }
}

/// The kind of the file called `name`.
pub fn infer_file_kind_from_name(name: &str) -> (r: FileKind)
    ensures
        r@ == file_kind_of(name@),
{
    let lower = lower_chars(name);
    if has_suffix(&lower, ".epub") {
        FileKind::Epub
    } else if has_suffix(&lower, ".pdf") {
        FileKind::Pdf
    } else if has_suffix(&lower, ".m4b") {
        FileKind::M4b
    } else if has_suffix(&lower, ".mp3") {
        FileKind::Mp3
    } else {
        let n = lower.len();
        assert(lower@.subrange(0, n as int) =~= lower@);
        FileKind::Unknown(string_of(&lower, 0, n))
    }
}

/// The texts among `items`, in order: what is no text is left out.
pub open spec fn texts_of(items: Seq<Json>) -> Seq<Seq<char>>
    decreases items.len(),
{
    if items.len() == 0 {
        Seq::empty()
    } else {
        let before = texts_of(items.drop_last());
        match items.last() {
            Json::String(text) => before.push(text),
            _ => before,
        }
    }
}

/// The authors that `extra` names: the texts in its array `authors`; none
/// where it has no such array.
pub open spec fn authors_of(extra: Json) -> Seq<Seq<char>> {
    match member(extra, "authors"@) {
        Some(Json::Array(items)) => texts_of(items),
        _ => Seq::empty(),
    }
}

/// The series that `extra` names: its member `series`, where that has an
/// `id` and a `name` that are texts.
pub open spec fn series_ref_of(extra: Json) -> Option<(Seq<char>, Seq<char>)> {
    match member(extra, "series"@) {
        Some(series) => match (string_member(series, "id"@), string_member(series, "name"@)) {
            (Some(id), Some(name)) => Some((id, name)),
            _ => None,
        },
        None => None,
    }
}

/// The text of the member `key` of `j`; empty where there is none.
pub open spec fn text_or_empty(j: Json, key: Seq<char>) -> Seq<char> {
    match string_member(j, key) {
        Some(text) => text,
        None => Seq::empty(),
    }
}

/// The files that the tracks `tracks` stand for: one for each track that has
/// a path, of the kind that the title of the track tells, at that path.
pub open spec fn files_of(tracks: Seq<Json>) -> Seq<(FileKindView, Seq<char>)>
    decreases tracks.len(),
{
    if tracks.len() == 0 {
        Seq::empty()
    } else {
        let before = files_of(tracks.drop_last());
        let url = text_or_empty(tracks.last(), "path"@);
        if url.len() == 0 {
            before
        } else {
            before.push((file_kind_of(text_or_empty(tracks.last(), "title"@)), url))
        }
    }
}

/// The files that `extra` names: those of its array `tracks`.
pub open spec fn formats_of(extra: Json) -> Seq<(FileKindView, Seq<char>)> {
    match member(extra, "tracks"@) {
        Some(Json::Array(tracks)) => files_of(tracks),
        _ => Seq::empty(),
    }
}

/// The address of the cover of the item `id` on the server at `base`.
pub open spec fn cover_of(base: Seq<char>, id: Seq<char>) -> Seq<char> {
    without_trailing(base, '/') + "/api/items/"@ + id + "/cover"@
}

/// The kinds and addresses of files.
pub open spec fn file_views(files: Seq<FileRef>) -> Seq<(FileKindView, Seq<char>)> {
    files.map_values(|f: FileRef| (f.kind@, f.url@))
}

/// The models of JSON values.
pub open spec fn models(items: Seq<serde_json::Value>) -> Seq<Json> {
    items.map_values(|item: serde_json::Value| json_model(item))
}

/// The texts among `items`.
fn collect_texts(items: &Vec<serde_json::Value>) -> (r: Vec<String>)
    ensures
        r.deep_view() == texts_of(models(items@)),
{
    let mut out: Vec<String> = Vec::new();
    let mut i: usize = 0;
    while i < items.len()
        invariant
            i <= items@.len(),
            out.deep_view() == texts_of(models(items@).take(i as int)),
        decreases items.len() - i,
    {
        proof {
            let upto = models(items@).take(i + 1);
            assert(upto.last() == json_model(items@[i as int]));
            assert(upto.drop_last() =~= models(items@).take(i as int));
        }
        match crate::json::json_as_str(&items[i]) {
            Some(text) => {
                let ghost before = out.deep_view();
                out.push(text.to_string());
                assert(out.deep_view() =~= before.push(text@));
            },
            None => {},
        }
        i = i + 1;
    }
    assert(models(items@).take(items@.len() as int) =~= models(items@));
    out
}

/// The text of the member `key` of `value`; empty where there is none.
fn text_member_or_empty(value: &serde_json::Value, key: &str) -> (r: String)
    ensures
        r@ == text_or_empty(json_model(*value), key@),
{
    match get_string(value, key) {
        Some(text) => text,
        None => String::new(),
    }
}

/// The files that `tracks` stand for.
fn collect_files(tracks: &Vec<serde_json::Value>) -> (r: Vec<FileRef>)
    ensures
        file_views(r@) == files_of(models(tracks@)),
        forall|k: int| 0 <= k < r@.len() ==> (#[trigger] r@[k]).size is None && r@[k].mime is None,
{
    let mut out: Vec<FileRef> = Vec::new();
    let mut i: usize = 0;
    while i < tracks.len()
        invariant
            i <= tracks@.len(),
            file_views(out@) == files_of(models(tracks@).take(i as int)),
            forall|k: int|
                0 <= k < out@.len() ==> (#[trigger] out@[k]).size is None && out@[k].mime is None,
        decreases tracks.len() - i,
    {
        proof {
            let upto = models(tracks@).take(i + 1);
            assert(upto.last() == json_model(tracks@[i as int]));
            assert(upto.drop_last() =~= models(tracks@).take(i as int));
        }
        let name = text_member_or_empty(&tracks[i], "title");
        let url = text_member_or_empty(&tracks[i], "path");
        if url.as_str().unicode_len() != 0 {
            let ghost before = out@;
            let file = FileRef {
                kind: infer_file_kind_from_name(name.as_str()),
                url,
                size: None,
                mime: None,
            };
            out.push(file);
            assert(file_views(out@) =~= file_views(before).push((file.kind@, file.url@)));
        }
        i = i + 1;
    }
    assert(models(tracks@).take(tracks@.len() as int) =~= models(tracks@));
    out
}

/// The book that the server's answer for an item stands for, on the server
/// at `abs_base_url`. The title is `Untitled` where the answer has none; the
/// authors, the series and the files are read from what else the answer says.
pub fn map_item_to_book(abs_base_url: &str, item: &ItemResponse) -> (book: Book)
    ensures
        book.id@ == item.id@,
        book.title@ == match item.title {
            Some(title) => title@,
            None => "Untitled"@,
        },
        book.authors.deep_view() == authors_of(json_model(item.extra)),
        match series_ref_of(json_model(item.extra)) {
            Some((id, name)) => book.series matches Some(series) && series.id@ == id
                && series.name@ == name,
            None => book.series is None,
        },
        book.cover_url matches Some(url) && url@ == cover_of(abs_base_url@, item.id@),
        file_views(book.formats@) == formats_of(json_model(item.extra)),
        forall|k: int|
            0 <= k < book.formats@.len() ==> (#[trigger] book.formats@[k]).size is None
                && book.formats@[k].mime is None,
        book.description is None,
{
    let title = match &item.title {
        Some(title) => title.clone(),
        None => String::from_str("Untitled"),
    };
    let authors: Vec<String> = match json_get(&item.extra, "authors") {
        Some(value) => match json_as_array(value) {
            Some(items) => collect_texts(items),
            None => Vec::new(),
        },
        None => Vec::new(),
    };
    let series: Option<SeriesRef> = match json_get(&item.extra, "series") {
        Some(value) => match get_string(value, "id") {
            Some(id) => match get_string(value, "name") {
                Some(name) => Some(SeriesRef { id, name }),
                None => None,
            },
            None => None,
        },
        None => None,
    };
    let base = trim_end_matches(abs_base_url, '/');
    let mut cover = glue3(base.as_str(), "/api/items/", item.id.as_str());
    cover.append("/cover");
    let formats: Vec<FileRef> = match json_get(&item.extra, "tracks") {
        Some(value) => match json_as_array(value) {
            Some(tracks) => collect_files(tracks),
            None => Vec::new(),
        },
        None => Vec::new(),
    };
    proof {
        assert(authors.deep_view() =~= authors_of(json_model(item.extra)));
        assert(file_views(formats@) =~= formats_of(json_model(item.extra)));
    }
    Book {
        id: item.id.clone(),
        title,
        authors,
        series,
        cover_url: Some(cover),
        formats,
        description: None,
    }
}

} // verus!
