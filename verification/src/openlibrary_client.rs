//! Lookups at OpenLibrary: the address to ask, and what an answer means.
//!
//! The request itself is made outside this library. It is made once, with
//! a time limit; whatever goes wrong with it is an error that the caller
//! of a lookup may absorb.

use vstd::prelude::*;
use vstd::string::StringExecFns;
use crate::error::{ErrorView, EzBooksError};
use crate::openlibrary_types::{BookDataView, BooksApiResponse};
use crate::text::{same_text, trim, trimmed};

verus! {

/// The seconds after which a lookup is given up.
pub const REQUEST_TIMEOUT_SECS: u64 = 30;

/// Where OpenLibrary is found where nothing else is configured.
pub open spec fn default_base_url() -> Seq<char> {
    "https://openlibrary.org"@
}

/// The address that answers for the book with the ISBN `isbn`.
pub open spec fn lookup_address(base_url: Seq<char>, isbn: Seq<char>) -> Seq<char> {
    base_url + "/api/books?bibkeys=ISBN:"@ + isbn + "&format=json&jscmd=data"@
}

/// What came back for a request that could be sent.
#[derive(Debug)]
pub struct HttpReply {
    /// Whether the status is one of success.
    pub success: bool,
    /// The status, as it is written in an error.
    pub status: String,
    /// The body, or the cause for which it could not be read. It is not
    /// looked at unless the status is one of success.
    pub body: Result<String, String>,
}

/// The model of a reply.
pub struct HttpReplyView {
    pub success: bool,
    pub status: Seq<char>,
    pub body: Result<Seq<char>, Seq<char>>,
}

impl View for HttpReply {
    type V = HttpReplyView;

    open spec fn view(&self) -> HttpReplyView {
        HttpReplyView {
            success: self.success,
            status: self.status@,
            body: match self.body {
                Ok(text) => Ok(text@),
                Err(cause) => Err(cause@),
            },
        }
    }
}

/// What a reply means before its body is parsed: the body to parse, or
/// nothing where OpenLibrary answers with an empty object, or the error
/// that the request ended in.
pub open spec fn screened(sent: Result<HttpReplyView, Seq<char>>) -> Result<
    Option<Seq<char>>,
    ErrorView,
> {
    match sent {
        Err(cause) => Err(ErrorView::OpenLibraryApi("Request failed: "@ + cause)),
        Ok(reply) => if !reply.success {
            Err(ErrorView::OpenLibraryApi("API returned status: "@ + reply.status))
        } else {
            match reply.body {
                Err(cause) => Err(
                    ErrorView::OpenLibraryApi("Failed to read response: "@ + cause),
                ),
                Ok(text) => if trimmed(text) == "{}"@ {
                    Ok(None)
                } else {
                    Ok(Some(text))
                },
            }
        },
    }
}

/// The address of the default service.
pub fn default_url() -> (url: String)
    ensures
        url@ == default_base_url(),
{
    String::from_str("https://openlibrary.org")
}

/// The address that answers for the book with the ISBN `isbn`.
pub fn lookup_url(base_url: &str, isbn: &str) -> (url: String)
    ensures
        url@ == lookup_address(base_url@, isbn@),
{
    let mut url = String::from_str(base_url);
    url.append("/api/books?bibkeys=ISBN:");
    url.append(isbn);
    url.append("&format=json&jscmd=data");
    url
}

/// Whether a body is the empty object, with or without white space
/// around it.
pub fn is_empty_object(body: &str) -> (b: bool)
    ensures
        b == (trimmed(body@) == "{}"@),
{
    same_text(trim(body), "{}")
}

/// What a reply means before its body is parsed.
pub fn screen_reply(sent: Result<HttpReply, String>) -> (result: Result<
    Option<String>,
    EzBooksError,
>)
    ensures
        match result {
            Ok(body) => screened(
                match sent {
                    Ok(reply) => Ok(reply@),
                    Err(cause) => Err(cause@),
                },
            ) == Ok::<Option<Seq<char>>, ErrorView>(body.deep_view()),
            Err(error) => screened(
                match sent {
                    Ok(reply) => Ok(reply@),
                    Err(cause) => Err(cause@),
                },
            ) == Err::<Option<Seq<char>>, ErrorView>(error@),
        },
{
    match sent {
        Err(cause) => Err(
            EzBooksError::OpenLibraryApi(String::from_str("Request failed: ").concat(cause.as_str())),
        ),
        Ok(reply) => {
            if !reply.success {
                return Err(
                    EzBooksError::OpenLibraryApi(
                        String::from_str("API returned status: ").concat(reply.status.as_str()),
                    ),
                );
            }
            match reply.body {
                Err(cause) => Err(
                    EzBooksError::OpenLibraryApi(
                        String::from_str("Failed to read response: ").concat(cause.as_str()),
                    ),
                ),
                Ok(text) => {
                    if is_empty_object(text.as_str()) {
                        Ok(None)
                    } else {
                        Ok(Some(text))
                    }
                },
            }
        },
    }
}

/// What a lookup gives, from what parsing the body gave: the editions
/// found, nothing where there is none, or the error that tells why the
/// body could not be parsed.
pub fn lookup_result(parsed: Result<BooksApiResponse, String>) -> (result: Result<
    Option<BooksApiResponse>,
    EzBooksError,
>)
    ensures
        match parsed {
            Ok(response) => if response@.len() == 0 {
                result matches Ok(None)
            } else {
                result matches Ok(Some(found)) && found@ == response@
            },
            Err(cause) => result matches Err(error) && error@ == ErrorView::OpenLibraryApi(
                "Failed to parse response: "@ + cause@,
            ),
        },
{
    match parsed {
        Ok(response) => {
            if response.is_empty() {
                Ok(None)
            } else {
                Ok(Some(response))
            }
        },
        Err(cause) => Err(
            EzBooksError::OpenLibraryApi(
                String::from_str("Failed to parse response: ").concat(cause.as_str()),
            ),
        ),
    }
}

} // verus!
