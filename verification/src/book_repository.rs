//! What the answers of the catalog store mean.
//!
//! The queries are made outside this library; here is decided what
//! their results amount to.

use vstd::prelude::*;
use crate::book_model::Book;
use crate::error::{ErrorView, EzBooksError};

verus! {

/// The book that a query by identifier found, or the error that tells
/// that no book has the identifier.
pub fn found_or_missing(id: &str, found: Option<Book>) -> (result: Result<Book, EzBooksError>)
    ensures
        match found {
            Some(book) => result matches Ok(b) && b@ == book@,
            None => result matches Err(error) && error@ == ErrorView::BookNotFound(id@),
        },
{
    match found {
        Some(book) => Ok(book),
        None => Err(EzBooksError::BookNotFound(id.to_string())),
    }
}

/// What a deletion by identifier amounts to, from the number of rows
/// that it removed: done, or the error that tells that no book has the
/// identifier.
pub fn deleted_or_missing(id: &str, rows_affected: u64) -> (result: Result<(), EzBooksError>)
    ensures
        match result {
            Ok(_) => rows_affected > 0,
            Err(error) => rows_affected == 0 && error@ == ErrorView::BookNotFound(id@),
        },
{
    if rows_affected == 0 {
        Err(EzBooksError::BookNotFound(id.to_string()))
    } else {
        Ok(())
    }
}

} // verus!
