//! The catalog record of a book.

use vstd::prelude::*;
use crate::text::copy_text;

verus! {

/// A book of the catalog.
#[derive(Debug)]
pub struct Book {
    pub id: String,
    pub title: String,
    pub author: Option<String>,
    pub isbn_10: Option<String>,
    pub isbn_13: Option<String>,
    pub publisher: Option<String>,
    pub publish_date: Option<String>,
    pub description: Option<String>,
    pub cover_image_path: Option<String>,
    pub epub_file_path: String,
    pub openlibrary_key: Option<String>,
    pub openlibrary_work_key: Option<String>,
    pub page_count: Option<i32>,
    pub language: Option<String>,
    pub created_at: i64,
    pub updated_at: i64,
}

/// The model of a book: every text as its characters.
pub struct BookView {
    pub id: Seq<char>,
    pub title: Seq<char>,
    pub author: Option<Seq<char>>,
    pub isbn_10: Option<Seq<char>>,
    pub isbn_13: Option<Seq<char>>,
    pub publisher: Option<Seq<char>>,
    pub publish_date: Option<Seq<char>>,
    pub description: Option<Seq<char>>,
    pub cover_image_path: Option<Seq<char>>,
    pub epub_file_path: Seq<char>,
    pub openlibrary_key: Option<Seq<char>>,
    pub openlibrary_work_key: Option<Seq<char>>,
    pub page_count: Option<i32>,
    pub language: Option<Seq<char>>,
    pub created_at: i64,
    pub updated_at: i64,
}

impl View for Book {
    type V = BookView;

    open spec fn view(&self) -> BookView {
        BookView {
            id: self.id@,
            title: self.title@,
            author: self.author.deep_view(),
            isbn_10: self.isbn_10.deep_view(),
            isbn_13: self.isbn_13.deep_view(),
            publisher: self.publisher.deep_view(),
            publish_date: self.publish_date.deep_view(),
            description: self.description.deep_view(),
            cover_image_path: self.cover_image_path.deep_view(),
            epub_file_path: self.epub_file_path@,
            openlibrary_key: self.openlibrary_key.deep_view(),
            openlibrary_work_key: self.openlibrary_work_key.deep_view(),
            page_count: self.page_count,
            language: self.language.deep_view(),
            created_at: self.created_at,
            updated_at: self.updated_at,
        }
    }
}

impl BookView {
    /// The record of a book of which only the identifier, the title, the
    /// place of its file and the time of creation are known.
    pub open spec fn fresh(id: Seq<char>, title: Seq<char>, epub_path: Seq<char>, now: i64) -> BookView {
        BookView {
            id,
            title,
            author: None,
            isbn_10: None,
            isbn_13: None,
            publisher: None,
            publish_date: None,
            description: None,
            cover_image_path: None,
            epub_file_path: epub_path,
            openlibrary_key: None,
            openlibrary_work_key: None,
            page_count: None,
            language: None,
            created_at: now,
            updated_at: now,
        }
    }
}

/// Whether `c` is a hexadecimal digit in lower case.
pub open spec fn is_lower_hex(c: char) -> bool {
    ('0' <= c && c <= '9') || ('a' <= c && c <= 'f')
}

/// The text form of a random UUID: five groups of lower-case hexadecimal
/// digits, 8-4-4-4-12, with hyphens between them, version 4, variant 1.
pub open spec fn is_random_uuid_text(s: Seq<char>) -> bool {
    &&& s.len() == 36
    &&& forall|i: int|
        0 <= i < 36 ==> if i == 8 || i == 13 || i == 18 || i == 23 {
            s[i] == '-'
        } else {
            is_lower_hex(#[trigger] s[i])
        }
    &&& s[14] == '4'
    &&& (s[19] == '8' || s[19] == '9' || s[19] == 'a' || s[19] == 'b')
}

/// Calls `uuid::Uuid::new_v4` and writes the result with its `Display`, the
/// hyphenated lower-case form. Which UUID comes is left open: the contract
/// states the shape that every version 4 UUID has in that form.
#[verifier::external_body]
fn random_uuid_text() -> (id: String)
    ensures
        is_random_uuid_text(id@),
{
    uuid::Uuid::new_v4().to_string()
}

/// Calls `std::time::SystemTime::elapsed` on the Unix epoch: the time
/// from the epoch to now, of which the whole seconds are taken, or
/// nothing where the clock stands before the epoch. Nothing is promised
/// of the value.
#[verifier::external_body]
fn seconds_since_epoch() -> (secs: Option<u64>) {
    std::time::UNIX_EPOCH.elapsed().ok().map(|d| d.as_secs())
}

/// The timestamp that stands for a reading of the clock: the seconds
/// since the epoch, cut to 63 bits, and 0 where there is no reading.
pub open spec fn timestamp_of(secs: Option<u64>) -> i64 {
    match secs {
        Some(s) => (s % 0x8000_0000_0000_0000) as i64,
        None => 0,
    }
}

/// The timestamp that stands for a reading of the clock.
pub fn timestamp_from(secs: Option<u64>) -> (t: i64)
    ensures
        t == timestamp_of(secs),
        t >= 0,
{
    match secs {
        Some(s) => (s % 0x8000_0000_0000_0000) as i64,
        None => 0,
    }
}

/// The time now, in seconds since the Unix epoch.
pub fn current_timestamp() -> (t: i64)
    ensures
        t >= 0,
{
    timestamp_from(seconds_since_epoch())
}

impl Book {
    /// A book under a new random identifier, created now.
    pub fn new(title: String, epub_path: String) -> (book: Book)
        ensures
            book@ == BookView::fresh(book@.id, title@, epub_path@, book@.created_at),
            is_random_uuid_text(book@.id),
            book@.created_at >= 0,
    {
        Book::with_identity(random_uuid_text(), current_timestamp(), title, epub_path)
    }

    /// A book under the identifier `id`, created at `now`.
    pub fn with_identity(id: String, now: i64, title: String, epub_path: String) -> (book: Book)
        ensures
            book@ == BookView::fresh(id@, title@, epub_path@, now),
    {
        Book {
            id,
            title,
            epub_file_path: epub_path,
            author: None,
            isbn_10: None,
            isbn_13: None,
            publisher: None,
            publish_date: None,
            description: None,
            cover_image_path: None,
            openlibrary_key: None,
            openlibrary_work_key: None,
            page_count: None,
            language: None,
            created_at: now,
            updated_at: now,
        }
    }
}

impl Clone for Book {
    fn clone(&self) -> (book: Book)
        ensures
            book@ == self@,
    {
        Book {
            id: self.id.clone(),
            title: self.title.clone(),
            author: copy_text(&self.author),
            isbn_10: copy_text(&self.isbn_10),
            isbn_13: copy_text(&self.isbn_13),
            publisher: copy_text(&self.publisher),
            publish_date: copy_text(&self.publish_date),
            description: copy_text(&self.description),
            cover_image_path: copy_text(&self.cover_image_path),
            epub_file_path: self.epub_file_path.clone(),
            openlibrary_key: copy_text(&self.openlibrary_key),
            openlibrary_work_key: copy_text(&self.openlibrary_work_key),
            page_count: self.page_count,
            language: copy_text(&self.language),
            created_at: self.created_at,
            updated_at: self.updated_at,
        }
    }
}

} // verus!
