//! The shapes of a book and its files.

use vstd::prelude::*;

verus! {

/// A series, by identifier and name.
#[derive(Debug, Clone, PartialEq)]
pub struct SeriesRef {
    pub id: String,
    pub name: String,
}

/// The kind of a file, told by its name.
#[derive(Debug, Clone, PartialEq)]
pub enum FileKind {
    Epub,
    Pdf,
    M4b,
    Mp3,
    Unknown(String),
}

/// The mathematical value of a `FileKind`.
pub enum FileKindView {
    Epub,
    Pdf,
    M4b,
    Mp3,
    Unknown(Seq<char>),
}

impl View for FileKind {
    type V = FileKindView;

    open spec fn view(&self) -> FileKindView {
        match self {
            FileKind::Epub => FileKindView::Epub,
            FileKind::Pdf => FileKindView::Pdf,
            FileKind::M4b => FileKindView::M4b,
            FileKind::Mp3 => FileKindView::Mp3,
            FileKind::Unknown(name) => FileKindView::Unknown(name@),
        }
    }
}

/// A file of a book.
#[derive(Debug, Clone, PartialEq)]
pub struct FileRef {
    pub kind: FileKind,
    pub url: String,
    pub size: Option<u64>,
    pub mime: Option<String>,
}

/// A book.
#[derive(Debug, Clone, PartialEq)]
pub struct Book {
    pub id: String,
    pub title: String,
    pub authors: Vec<String>,
    pub series: Option<SeriesRef>,
    pub cover_url: Option<String>,
    pub formats: Vec<FileRef>,
    pub description: Option<String>,
}

} // verus!
