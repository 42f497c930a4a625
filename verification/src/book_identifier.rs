//! Enrichment: what a record takes over from an OpenLibrary answer.
//!
//! Title, author and publisher are the document's own where it has them;
//! description, date, page count and keys are OpenLibrary's where it has
//! them.

use vstd::prelude::*;
use vstd::string::StrSliceExecFns;
use vstd::string::StringExecFns;
use crate::book_model::{is_random_uuid_text, Book, BookView};
use crate::epub_parser::{EpubMetadata, EpubMetadataView};
use crate::error::{ErrorView, EzBooksError};
use crate::openlibrary_types::{BookData, BookDataView, BooksApiResponse};
use crate::text::{chars_of, copy_text, find_in, find_seq, same_text};

verus! {

/// The title of a book whose document names none.
pub open spec fn unknown_title() -> Seq<char> {
    "Unknown"@
}

/// The path segment that marks the key of a work in an OpenLibrary URL.
pub open spec fn works_segment() -> Seq<char> {
    "/works/"@
}

/// The key of the work that an OpenLibrary URL leads to: the URL from
/// its first `/works/` on.
pub open spec fn work_key_of(url: Seq<char>) -> Option<Seq<char>> {
    match find_seq(url, works_segment()) {
        Some(i) => Some(url.skip(i)),
        None => None,
    }
}

/// The description made of an edition's title and subtitle.
pub open spec fn described(title: Option<Seq<char>>, subtitle: Seq<char>) -> Seq<char> {
    (match title {
        Some(t) => t,
        None => Seq::empty(),
    }) + "\n\n"@ + subtitle
}

/// The record after it has taken over what `data` knows.
pub open spec fn merged_record(book: BookView, data: BookDataView) -> BookView {
    BookView {
        title: if book.title == unknown_title() && data.title is Some {
            data.title->0
        } else {
            book.title
        },
        author: if book.author is None && data.authors.len() > 0 {
            Some(data.authors[0].name)
        } else {
            book.author
        },
        description: match data.subtitle {
            Some(subtitle) => Some(described(data.title, subtitle)),
            None => book.description,
        },
        publisher: if book.publisher is None && data.publishers.len() > 0 {
            Some(data.publishers[0].name)
        } else {
            book.publisher
        },
        publish_date: if data.publish_date is Some {
            data.publish_date
        } else {
            book.publish_date
        },
        page_count: if data.number_of_pages is Some {
            data.number_of_pages
        } else {
            book.page_count
        },
        openlibrary_key: if data.key is Some {
            data.key
        } else {
            book.openlibrary_key
        },
        openlibrary_work_key: match data.url {
            Some(url) => match work_key_of(url) {
                Some(key) => Some(key),
                None => book.openlibrary_work_key,
            },
            None => book.openlibrary_work_key,
        },
        ..book
    }
}

/// The record after it has taken over the first edition of an answer; the
/// record itself where the answer holds no edition.
pub open spec fn merged(book: BookView, response: Seq<(Seq<char>, BookDataView)>) -> BookView {
    if response.len() == 0 {
        book
    } else {
        merged_record(book, response[0].1)
    }
}

/// The key of the work that `url` leads to.
pub fn work_key(url: &str) -> (key: Option<String>)
    ensures
        key.deep_view() == work_key_of(url@),
{
    let chars = chars_of(url);
    let segment = chars_of("/works/");
    match find_in(&chars, &segment) {
        Some(i) => {
            proof {
                crate::text::lemma_find_from(url@, works_segment(), 0);
            }
            let rest = url.substring_char(i, chars.len());
            assert(url@.subrange(i as int, chars.len() as int) =~= url@.skip(i as int));
            Some(String::from_str(rest))
        },
        None => None,
    }
}

/// Takes over into `book` what `data` knows of the edition.
pub fn merge_book_data(book: &mut Book, data: &BookData)
    ensures
        final(book)@ == merged_record(old(book)@, data@),
{
    if same_text(book.title.as_str(), "Unknown") {
        if let Some(title) = &data.title {
            book.title = title.clone();
        }
    }
    if book.author.is_none() && data.authors.len() > 0 {
        book.author = Some(data.authors[0].name.clone());
    }
    if let Some(subtitle) = &data.subtitle {
        let head = match &data.title {
            Some(title) => title.clone(),
            None => String::new(),
        };
        book.description = Some(head.concat("\n\n").concat(subtitle.as_str()));
    }
    if book.publisher.is_none() && data.publishers.len() > 0 {
        book.publisher = Some(data.publishers[0].name.clone());
    }
    if data.publish_date.is_some() {
        book.publish_date = copy_text(&data.publish_date);
    }
    if data.number_of_pages.is_some() {
        book.page_count = data.number_of_pages;
    }
    if data.key.is_some() {
        book.openlibrary_key = copy_text(&data.key);
    }
    if let Some(url) = &data.url {
        let key = work_key(url.as_str());
        if key.is_some() {
            book.openlibrary_work_key = key;
        }
    }
}

/// Takes over into `book` what the first edition of `ol_response` knows.
/// An answer without editions leaves the book as it is.
pub fn merge_openlibrary_data(book: &mut Book, ol_response: BooksApiResponse)
    ensures
        final(book)@ == merged(old(book)@, ol_response@),
{
    if ol_response.books.len() > 0 {
        merge_book_data(book, &ol_response.books[0].1);
    }
}

/// A second merge of the same edition changes nothing.
pub proof fn lemma_merge_idempotent(book: BookView, data: BookDataView)
    ensures
        merged_record(merged_record(book, data), data) == merged_record(book, data),
{
}

/// A second merge of the same answer changes nothing.
pub proof fn lemma_merge_response_idempotent(
    book: BookView,
    response: Seq<(Seq<char>, BookDataView)>,
)
    ensures
        merged(merged(book, response), response) == merged(book, response),
{
}

/// A title that the document gave, an author and a publisher that the
/// record has are never replaced.
pub proof fn lemma_merge_keeps_local(book: BookView, data: BookDataView)
    ensures
        book.title != unknown_title() ==> merged_record(book, data).title == book.title,
        book.author is Some ==> merged_record(book, data).author == book.author,
        book.publisher is Some ==> merged_record(book, data).publisher == book.publisher,
{
}

/// Title, author and publisher are settled by the first merge of an
/// edition: merging it again leaves them as they are.
pub proof fn lemma_merge_guarded_fields_stable(book: BookView, data: BookDataView)
    ensures
        merged_record(merged_record(book, data), data).title == merged_record(book, data).title,
        merged_record(merged_record(book, data), data).author == merged_record(book, data).author,
        merged_record(merged_record(book, data), data).publisher == merged_record(
            book,
            data,
        ).publisher,
{
}

/// Description, date, page count and keys follow the edition wherever it
/// has them, whatever the record held before.
pub proof fn lemma_merge_overwrites(book: BookView, data: BookDataView)
    ensures
        data.subtitle is Some ==> merged_record(book, data).description == Some(
            described(data.title, data.subtitle->0),
        ),
        data.publish_date is Some ==> merged_record(book, data).publish_date == data.publish_date,
        data.number_of_pages is Some ==> merged_record(book, data).page_count
            == data.number_of_pages,
        data.key is Some ==> merged_record(book, data).openlibrary_key == data.key,
        data.url is Some && work_key_of(data.url->0) is Some ==> merged_record(
            book,
            data,
        ).openlibrary_work_key == work_key_of(data.url->0),
{
}

/// What the merge does not speak of stays: identifier, ISBNs, paths,
/// language and timestamps.
pub proof fn lemma_merge_frame(book: BookView, data: BookDataView)
    ensures
        merged_record(book, data).id == book.id,
        merged_record(book, data).isbn_10 == book.isbn_10,
        merged_record(book, data).isbn_13 == book.isbn_13,
        merged_record(book, data).cover_image_path == book.cover_image_path,
        merged_record(book, data).epub_file_path == book.epub_file_path,
        merged_record(book, data).language == book.language,
        merged_record(book, data).created_at == book.created_at,
        merged_record(book, data).updated_at == book.updated_at,
{
}

/// The record of a document before enrichment: what the document says of
/// itself, under the identifier `id`, created at `now`.
pub open spec fn base_record(
    metadata: EpubMetadataView,
    id: Seq<char>,
    now: i64,
    epub_path: Seq<char>,
) -> BookView {
    BookView {
        author: metadata.author,
        isbn_10: metadata.isbn_10,
        isbn_13: metadata.isbn_13,
        publisher: metadata.publisher,
        language: metadata.language,
        description: metadata.description,
        ..BookView::fresh(id, metadata.title, epub_path, now)
    }
}

/// What a lookup ended in: the editions found, nothing where OpenLibrary
/// knows none, or an error. A lookup that was not made is no outcome at
/// all.
pub type LookupOutcome = Result<Option<BooksApiResponse>, EzBooksError>;

/// The model of the outcome of a lookup.
pub type LookupOutcomeView = Result<Option<Seq<(Seq<char>, BookDataView)>>, ErrorView>;

/// The model of the outcome of a lookup.
pub open spec fn outcome_view(outcome: LookupOutcome) -> LookupOutcomeView {
    match outcome {
        Ok(Some(response)) => Ok(Some(response@)),
        Ok(None) => Ok(None),
        Err(error) => Err(error@),
    }
}

/// The model of a lookup that may not have been made.
pub open spec fn lookup_view(lookup: Option<LookupOutcome>) -> Option<LookupOutcomeView> {
    match lookup {
        Some(outcome) => Some(outcome_view(outcome)),
        None => None,
    }
}

/// The ISBN to look a record up by: its ISBN-13 where it has one, else
/// its ISBN-10.
pub open spec fn preferred_isbn(book: BookView) -> Option<Seq<char>> {
    if book.isbn_13 is Some {
        book.isbn_13
    } else {
        book.isbn_10
    }
}

/// Whether a record is enriched by the outcome of a lookup: it has an
/// ISBN, and the lookup found at least one edition.
pub open spec fn enriches(book: BookView, outcome: LookupOutcomeView) -> bool {
    preferred_isbn(book) is Some && (outcome matches Ok(Some(response)) && response.len() > 0)
}

/// The record after a lookup: merged with the first edition found where
/// the outcome enriches it, else as it was.
pub open spec fn enriched(book: BookView, lookup: Option<LookupOutcomeView>) -> BookView {
    match lookup {
        Some(outcome) => if enriches(book, outcome) {
            merged(book, outcome->Ok_0->0)
        } else {
            book
        },
        None => book,
    }
}

/// An error, an empty answer or a lookup that was not made leave the
/// record as the document gave it.
pub proof fn lemma_enriched_absorbs(book: BookView, lookup: Option<LookupOutcomeView>)
    ensures
        lookup is None || lookup->0 is Err || lookup->0 == Ok::<
            Option<Seq<(Seq<char>, BookDataView)>>,
            ErrorView,
        >(None) || preferred_isbn(book) is None ==> enriched(book, lookup) == book,
{
}

/// Enrichment leaves the identifier, the ISBNs and the timestamps of a
/// record as they are.
pub proof fn lemma_enrichment_frame(book: BookView, lookup: Option<LookupOutcomeView>)
    ensures
        enriched(book, lookup).id == book.id,
        enriched(book, lookup).isbn_10 == book.isbn_10,
        enriched(book, lookup).isbn_13 == book.isbn_13,
        enriched(book, lookup).created_at == book.created_at,
        enriched(book, lookup).updated_at == book.updated_at,
{
}

/// The ISBN to look a document up by: its ISBN-13 where it has one, else
/// its ISBN-10.
pub fn lookup_key(metadata: &EpubMetadata) -> (key: Option<String>)
    ensures
        key.deep_view() == metadata@.identifiers().preferred(),
{
    if metadata.isbn_13.is_some() {
        copy_text(&metadata.isbn_13)
    } else {
        copy_text(&metadata.isbn_10)
    }
}

/// The record of a document before enrichment.
pub fn book_from_metadata(metadata: EpubMetadata, id: String, now: i64, epub_path: String) -> (book:
    Book)
    ensures
        book@ == base_record(metadata@, id@, now, epub_path@),
{
    let mut book = Book::with_identity(id, now, metadata.title, epub_path);
    book.author = metadata.author;
    book.isbn_10 = metadata.isbn_10;
    book.isbn_13 = metadata.isbn_13;
    book.publisher = metadata.publisher;
    book.language = metadata.language;
    book.description = metadata.description;
    book
}

/// Applies the outcome of a lookup to a record. Tells whether the record
/// was enriched.
pub fn enrich(book: &mut Book, outcome: LookupOutcome) -> (applied: bool)
    ensures
        applied == enriches(old(book)@, outcome_view(outcome)),
        final(book)@ == enriched(old(book)@, Some(outcome_view(outcome))),
{
    if book.isbn_13.is_none() && book.isbn_10.is_none() {
        return false;
    }
    match outcome {
        Ok(Some(response)) => {
            if response.is_empty() {
                false
            } else {
                merge_openlibrary_data(book, response);
                true
            }
        },
        _ => false,
    }
}

/// The record of a document, enriched by what a lookup gave. `lookup` is
/// the outcome of the lookup by the document's preferred ISBN, and
/// nothing where the document has no ISBN and no lookup was made. The
/// record gets a new random identifier and the time of now.
pub fn identify_and_enrich(
    lookup: Option<LookupOutcome>,
    epub_metadata: EpubMetadata,
    epub_path: String,
) -> (book: Book)
    ensures
        book@ == enriched(
            base_record(epub_metadata@, book@.id, book@.created_at, epub_path@),
            lookup_view(lookup),
        ),
        is_random_uuid_text(book@.id),
        book@.created_at >= 0,
{
    let fresh = Book::new(String::new(), String::new());
    let mut book = book_from_metadata(epub_metadata, fresh.id, fresh.created_at, epub_path);
    if let Some(outcome) = lookup {
        let _ = enrich(&mut book, outcome);
    }
    book
}

} // verus!
