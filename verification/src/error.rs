//! The errors of the library.

use vstd::prelude::*;
use vstd::string::StringExecFns;

verus! {

/// What can go wrong while a book is taken in, stored or served.
#[derive(Debug)]
pub enum EzBooksError {
    /// The catalog store refused or failed an operation.
    Database(String),
    /// The document is not a readable EPUB package.
    EpubParse(String),
    /// The bibliographic lookup failed.
    OpenLibraryApi(String),
    /// Reading or writing a file failed.
    Io(String),
    /// No book has the identifier carried here.
    BookNotFound(String),
    /// The upload is not an EPUB file.
    InvalidFormat,
    /// The file store failed.
    FileStorage(String),
    /// A cover image could not be decoded or encoded.
    ImageProcessing(String),
    /// An HTTP request could not be made.
    HttpRequest(String),
    /// A value could not be turned into JSON, or back.
    JsonSerialization(String),
}

/// The model of an error: its kind and the characters of its detail.
pub enum ErrorView {
    Database(Seq<char>),
    EpubParse(Seq<char>),
    OpenLibraryApi(Seq<char>),
    Io(Seq<char>),
    BookNotFound(Seq<char>),
    InvalidFormat,
    FileStorage(Seq<char>),
    ImageProcessing(Seq<char>),
    HttpRequest(Seq<char>),
    JsonSerialization(Seq<char>),
}

impl View for EzBooksError {
    type V = ErrorView;

    open spec fn view(&self) -> ErrorView {
        match *self {
            EzBooksError::Database(m) => ErrorView::Database(m@),
            EzBooksError::EpubParse(m) => ErrorView::EpubParse(m@),
            EzBooksError::OpenLibraryApi(m) => ErrorView::OpenLibraryApi(m@),
            EzBooksError::Io(m) => ErrorView::Io(m@),
            EzBooksError::BookNotFound(m) => ErrorView::BookNotFound(m@),
            EzBooksError::InvalidFormat => ErrorView::InvalidFormat,
            EzBooksError::FileStorage(m) => ErrorView::FileStorage(m@),
            EzBooksError::ImageProcessing(m) => ErrorView::ImageProcessing(m@),
            EzBooksError::HttpRequest(m) => ErrorView::HttpRequest(m@),
            EzBooksError::JsonSerialization(m) => ErrorView::JsonSerialization(m@),
        }
    }
}

impl ErrorView {
    /// The sentence that describes the error.
    pub open spec fn text(self) -> Seq<char> {
        match self {
            ErrorView::Database(m) => "Database error: "@ + m,
            ErrorView::EpubParse(m) => "EPUB parsing error: "@ + m,
            ErrorView::OpenLibraryApi(m) => "OpenLibrary API error: "@ + m,
            ErrorView::Io(m) => "IO error: "@ + m,
            ErrorView::BookNotFound(m) => "Book not found: "@ + m,
            ErrorView::InvalidFormat => "Invalid file format"@,
            ErrorView::FileStorage(m) => "File storage error: "@ + m,
            ErrorView::ImageProcessing(m) => "Image processing error: "@ + m,
            ErrorView::HttpRequest(m) => "HTTP request error: "@ + m,
            ErrorView::JsonSerialization(m) => "JSON serialization error: "@ + m,
        }
    }

    /// Whether an ingestion that meets this error is abandoned. Lookup and
    /// image errors are absorbed; every other error ends the ingestion.
    pub open spec fn is_fatal(self) -> bool {
        !(self is OpenLibraryApi || self is ImageProcessing || self is HttpRequest)
    }
}

impl EzBooksError {
    /// The sentence that describes the error.
    pub fn to_text(&self) -> (s: String)
        ensures
            s@ == self@.text(),
    {
        match self {
            EzBooksError::Database(m) => String::from_str("Database error: ").concat(m.as_str()),
            EzBooksError::EpubParse(m) => String::from_str("EPUB parsing error: ").concat(
                m.as_str(),
            ),
            EzBooksError::OpenLibraryApi(m) => String::from_str("OpenLibrary API error: ").concat(
                m.as_str(),
            ),
            EzBooksError::Io(m) => String::from_str("IO error: ").concat(m.as_str()),
            EzBooksError::BookNotFound(m) => String::from_str("Book not found: ").concat(
                m.as_str(),
            ),
            EzBooksError::InvalidFormat => String::from_str("Invalid file format"),
            EzBooksError::FileStorage(m) => String::from_str("File storage error: ").concat(
                m.as_str(),
            ),
            EzBooksError::ImageProcessing(m) => String::from_str(
                "Image processing error: ",
            ).concat(m.as_str()),
            EzBooksError::HttpRequest(m) => String::from_str("HTTP request error: ").concat(
                m.as_str(),
            ),
            EzBooksError::JsonSerialization(m) => String::from_str(
                "JSON serialization error: ",
            ).concat(m.as_str()),
        }
    }

    /// Whether an ingestion that meets this error is abandoned.
    pub fn is_fatal(&self) -> (b: bool)
        ensures
            b == self@.is_fatal(),
    {
        match self {
            EzBooksError::OpenLibraryApi(_) => false,
            EzBooksError::ImageProcessing(_) => false,
            EzBooksError::HttpRequest(_) => false,
            _ => true,
        }
    }
}

} // verus!
