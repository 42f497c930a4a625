//! Where the files of a book are kept: its EPUB under `books`, its cover
//! under `covers`, both named by the identifier of the book.
//!
//! The library names the places; reading and writing them is done outside
//! it.

use vstd::prelude::*;
use vstd::string::StringExecFns;
use crate::error::{ErrorView, EzBooksError};

verus! {

/// The two kinds of file kept for a book.
#[derive(Debug, Clone, Copy, PartialEq, Eq, Structural)]
pub enum ArtifactKind {
    Epub,
    Cover,
}

/// What is done with a file.
#[derive(Debug, Clone, Copy, PartialEq, Eq, Structural)]
pub enum StorageOp {
    Save,
    Read,
    Delete,
}

impl ArtifactKind {
    /// The directory, under the base of the store, that holds the files
    /// of this kind.
    pub open spec fn directory_text(self) -> Seq<char> {
        match self {
            ArtifactKind::Epub => "books"@,
            ArtifactKind::Cover => "covers"@,
        }
    }

    /// The ending of the files of this kind.
    pub open spec fn extension_text(self) -> Seq<char> {
        match self {
            ArtifactKind::Epub => ".epub"@,
            ArtifactKind::Cover => ".jpg"@,
        }
    }

    /// How an error speaks of a file of this kind.
    pub open spec fn label_text(self) -> Seq<char> {
        match self {
            ArtifactKind::Epub => "EPUB file"@,
            ArtifactKind::Cover => "cover image"@,
        }
    }

    /// The name of the file of this kind for the book `book_id`.
    pub open spec fn file_name_text(self, book_id: Seq<char>) -> Seq<char> {
        book_id + self.extension_text()
    }

    /// The directory that holds the files of this kind.
    pub fn directory(self) -> (name: String)
        ensures
            name@ == self.directory_text(),
    {
        match self {
            ArtifactKind::Epub => String::from_str("books"),
            ArtifactKind::Cover => String::from_str("covers"),
        }
    }

    /// The name of the file of this kind for the book `book_id`.
    pub fn file_name(self, book_id: &str) -> (name: String)
        ensures
            name@ == self.file_name_text(book_id@),
    {
        let name = String::from_str(book_id);
        match self {
            ArtifactKind::Epub => name.concat(".epub"),
            ArtifactKind::Cover => name.concat(".jpg"),
        }
    }
}

impl StorageOp {
    /// How an error speaks of what was tried.
    pub open spec fn verb_text(self) -> Seq<char> {
        match self {
            StorageOp::Save => "save"@,
            StorageOp::Read => "read"@,
            StorageOp::Delete => "delete"@,
        }
    }
}

/// The detail of the error for a failed operation on a file.
pub open spec fn failure_text(op: StorageOp, kind: ArtifactKind, cause: Seq<char>) -> Seq<char> {
    "Failed to "@ + op.verb_text() + " "@ + kind.label_text() + ": "@ + cause
}

/// The error for an operation on a file that failed for `cause`.
pub fn storage_failure(op: StorageOp, kind: ArtifactKind, cause: &str) -> (error: EzBooksError)
    ensures
        error@ == ErrorView::FileStorage(failure_text(op, kind, cause@)),
{
    let mut text = String::from_str("Failed to ");
    match op {
        StorageOp::Save => text.append("save"),
        StorageOp::Read => text.append("read"),
        StorageOp::Delete => text.append("delete"),
    }
    text.append(" ");
    match kind {
        ArtifactKind::Epub => text.append("EPUB file"),
        ArtifactKind::Cover => text.append("cover image"),
    }
    text.append(": ");
    text.append(cause);
    EzBooksError::FileStorage(text)
}

/// What removing a file amounts to. `removal` is what removing it gave,
/// and nothing where the file was not there: that is no error.
pub fn removal_result(kind: ArtifactKind, removal: Option<Result<(), String>>) -> (result: Result<
    (),
    EzBooksError,
>)
    ensures
        match removal {
            Some(Err(cause)) => result matches Err(error) && error@ == ErrorView::FileStorage(
                failure_text(StorageOp::Delete, kind, cause@),
            ),
            _ => result is Ok,
        },
{
    match removal {
        Some(Err(cause)) => Err(storage_failure(StorageOp::Delete, kind, cause.as_str())),
        _ => Ok(()),
    }
}

/// A store of files under one base directory.
#[derive(Debug, Clone)]
pub struct FileStorage {
    pub base_path: String,
}

impl View for FileStorage {
    type V = Seq<char>;

    open spec fn view(&self) -> Seq<char> {
        self.base_path@
    }
}

/// The place of a file: the base of the store, the directory of its kind,
/// and its name, from the outermost in.
pub open spec fn place_of(base: Seq<char>, kind: ArtifactKind, book_id: Seq<char>) -> Seq<
    Seq<char>,
> {
    seq![base, kind.directory_text(), kind.file_name_text(book_id)]
}

impl FileStorage {
    /// The store under `base_path`.
    pub fn new(base_path: String) -> (storage: FileStorage)
        ensures
            storage@ == base_path@,
    {
        FileStorage { base_path }
    }

    /// The place of the file of kind `kind` of the book `book_id`, as the
    /// components of its path.
    pub fn artifact_path(&self, kind: ArtifactKind, book_id: &str) -> (path: Vec<String>)
        ensures
            path.deep_view() == place_of(self@, kind, book_id@),
    {
        let mut path: Vec<String> = Vec::new();
        path.push(self.base_path.clone());
        path.push(kind.directory());
        path.push(kind.file_name(book_id));
        assert(path.deep_view() =~= place_of(self@, kind, book_id@));
        path
    }

    /// The place of the EPUB of the book `book_id`.
    pub fn epub_path(&self, book_id: &str) -> (path: Vec<String>)
        ensures
            path.deep_view() == place_of(self@, ArtifactKind::Epub, book_id@),
    {
        self.artifact_path(ArtifactKind::Epub, book_id)
    }

    /// The place of the cover of the book `book_id`.
    pub fn cover_path(&self, book_id: &str) -> (path: Vec<String>)
        ensures
            path.deep_view() == place_of(self@, ArtifactKind::Cover, book_id@),
    {
        self.artifact_path(ArtifactKind::Cover, book_id)
    }
}

} // verus!
