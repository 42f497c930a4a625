use ez_books::epub_parser::MetadataEntry;
use ez_books::error::EzBooksError;
use ez_books::openlibrary_types::{Author, BookData, BooksApiResponse};
use ez_books::upload_handler::{
    persist, settle_cover, Action, Draft, Event, Ingestion, Package, Progress, UploadResponse,
};
use ez_books::book_model::Book;
use image::{GenericImageView, ImageFormat};
use std::io::Cursor;

fn entry(property: &str, value: &str) -> MetadataEntry {
    MetadataEntry {
        property: property.to_string(),
        value: value.to_string(),
    }
}

fn package(author: Option<&str>, cover: Option<Vec<u8>>) -> Package {
    let mut entries = vec![
        entry("identifier", "9781234567890"),
        entry("subject", "Fiction"),
        entry("subject", "Adventure"),
    ];
    if let Some(name) = author {
        entries.push(entry("creator", name));
    }
    Package { entries, cover }
}

fn found() -> BooksApiResponse {
    let mut data = BookData::empty();
    data.title = Some("Enhanced Test Book".to_string());
    data.subtitle = Some("A Test Subtitle".to_string());
    data.authors = vec![Author {
        name: "OpenLibrary Author".to_string(),
        url: None,
    }];
    let mut response = BooksApiResponse::new();
    response.insert("ISBN:9781234567890".to_string(), data);
    response
}

fn png_of(width: u32, height: u32) -> Vec<u8> {
    let mut png_data = Vec::new();
    let img = image::RgbaImage::from_pixel(width, height, image::Rgba([9, 9, 9, 255]));
    img.write_to(&mut Cursor::new(&mut png_data), ImageFormat::Png)
        .unwrap();
    png_data
}

/// What the collaborators did for one ingestion.
struct Run {
    end: Result<UploadResponse, EzBooksError>,
    lookups: Vec<String>,
    saved_epubs: Vec<String>,
    saved_covers: Vec<(String, Vec<u8>)>,
    records: Vec<Book>,
    subjects: Vec<(String, String)>,
    trace: Vec<&'static str>,
}

/// Drives an ingestion with collaborators that answer as told.
fn run(
    filename: &str,
    parsed: Result<Package, String>,
    lookup: Result<Option<BooksApiResponse>, EzBooksError>,
    database_up: bool,
) -> Run {
    let mut parsed = Some(parsed);
    let mut lookup = Some(lookup);
    let mut run = Run {
        end: Err(EzBooksError::InvalidFormat),
        lookups: vec![],
        saved_epubs: vec![],
        saved_covers: vec![],
        records: vec![],
        subjects: vec![],
        trace: vec![],
    };
    let mut state = Ingestion::receive(filename);
    for _ in 0..100 {
        run.trace.push(match &state {
            Ingestion::Received => "Received",
            Ingestion::Extracted(_) => "Extracted",
            Ingestion::Enriched(_) => "Enriched",
            Ingestion::EnrichmentSkipped(_) => "EnrichmentSkipped",
            Ingestion::CoverReady(_, _) => "CoverReady",
            Ingestion::Persisted(_) => "Persisted",
            Ingestion::Complete(_) => "Complete",
            Ingestion::Failed(_) => "Failed",
        });
        let event = match state.action() {
            Action::ParseDocument => Event::Parsed(parsed.take().unwrap()),
            Action::Lookup(isbn) => {
                run.lookups.push(isbn);
                Event::LookedUp(lookup.take().unwrap())
            }
            Action::SaveEpub(id) => {
                run.saved_epubs.push(id.clone());
                Event::Saved(Ok(format!("/data/books/{}.epub", id)))
            }
            Action::SaveCover(id, bytes) => {
                run.saved_covers.push((id.clone(), bytes));
                Event::Saved(Ok(format!("/data/covers/{}.jpg", id)))
            }
            Action::InsertRecord(book) => {
                if database_up {
                    run.records.push(book);
                    Event::Inserted(Ok(()))
                } else {
                    Event::Inserted(Err("unable to open database file".to_string()))
                }
            }
            Action::InsertSubject(id, subject) => {
                run.subjects.push((id, subject));
                Event::Inserted(Ok(()))
            }
            Action::Proceed => Event::Proceed,
            Action::Respond(response) => {
                run.end = Ok(response);
                return run;
            }
            Action::Fail(error) => {
                run.end = Err(error);
                return run;
            }
        };
        state = state.step(event);
    }
    panic!("the ingestion does not end");
}

#[test]
fn should_create_upload_response() {
    // Given: Book details
    let id = "test-id".to_string();
    let title = "Test Book".to_string();
    let author = Some("Test Author".to_string());

    // When: Creating upload response
    let response = UploadResponse {
        id: id.clone(),
        title: title.clone(),
        author: author.clone(),
    };

    // Then: Should have correct fields
    assert_eq!(response.id, id);
    assert_eq!(response.title, title);
    assert_eq!(response.author, author);
}

#[test]
fn an_unknown_book_is_enriched_by_the_lookup() {
    let run = run("book.epub", Ok(package(None, None)), Ok(Some(found())), true);
    let response = run.end.unwrap();
    assert_eq!(response.title, "Enhanced Test Book");
    assert_eq!(response.author, Some("OpenLibrary Author".to_string()));
    assert_eq!(run.lookups, vec!["9781234567890"]);
    assert_eq!(run.records.len(), 1);
    let record = &run.records[0];
    assert_eq!(record.id, response.id);
    assert_eq!(record.title, "Enhanced Test Book");
    assert_eq!(record.author, Some("OpenLibrary Author".to_string()));
    assert_eq!(
        record.description,
        Some("Enhanced Test Book\n\nA Test Subtitle".to_string())
    );
    assert_eq!(record.publisher, None);
    assert_eq!(record.isbn_13, Some("9781234567890".to_string()));
    assert_eq!(
        record.epub_file_path,
        format!("/data/books/{}.epub", record.id)
    );
    assert_eq!(
        run.trace,
        vec![
            "Received",
            "Extracted",
            "Enriched",
            "CoverReady",
            "CoverReady",
            "CoverReady",
            "CoverReady",
            "Persisted",
            "Complete"
        ]
    );
}

#[test]
fn the_author_of_the_document_stays() {
    let run = run(
        "book.epub",
        Ok(package(Some("EPUB Author"), None)),
        Ok(Some(found())),
        true,
    );
    let response = run.end.unwrap();
    assert_eq!(response.author, Some("EPUB Author".to_string()));
    assert_eq!(run.records[0].author, Some("EPUB Author".to_string()));
    assert_eq!(run.records[0].title, "Enhanced Test Book");
}

#[test]
fn a_failed_lookup_does_not_fail_the_ingestion() {
    for outcome in [
        Err(EzBooksError::OpenLibraryApi("Request failed: operation timed out".to_string())),
        Err(EzBooksError::OpenLibraryApi("API returned status: 500".to_string())),
        Ok(None),
        Ok(Some(BooksApiResponse::new())),
    ] {
        let run = run("book.epub", Ok(package(Some("EPUB Author"), None)), outcome, true);
        let response = run.end.unwrap();
        assert_eq!(response.title, "Unknown");
        assert_eq!(response.author, Some("EPUB Author".to_string()));
        assert_eq!(run.lookups.len(), 1);
        assert_eq!(run.records.len(), 1);
        assert_eq!(run.records[0].description, None);
        assert_eq!(run.trace[2], "EnrichmentSkipped");
    }
}

#[test]
fn a_document_without_isbn_is_not_looked_up() {
    let package = Package {
        entries: vec![entry("title", "Plain"), entry("identifier", "urn:uuid:1")],
        cover: None,
    };
    let run = run("book.epub", Ok(package), Ok(Some(found())), true);
    let response = run.end.unwrap();
    assert_eq!(response.title, "Plain");
    assert!(run.lookups.is_empty());
    assert_eq!(run.trace[2], "EnrichmentSkipped");
    assert!(run.subjects.is_empty());
}

#[test]
fn a_document_without_cover_gets_no_cover() {
    let run = run("book.epub", Ok(package(None, None)), Ok(None), true);
    assert!(run.end.is_ok());
    assert!(run.saved_covers.is_empty());
    assert_eq!(run.saved_epubs.len(), 1);
    assert_eq!(run.records[0].cover_image_path, None);
}

#[test]
fn an_embedded_cover_is_normalized_and_saved() {
    let run = run(
        "book.epub",
        Ok(package(None, Some(png_of(600, 600)))),
        Ok(None),
        true,
    );
    let response = run.end.unwrap();
    assert_eq!(run.saved_covers.len(), 1);
    let (id, bytes) = &run.saved_covers[0];
    assert_eq!(id, &response.id);
    assert_eq!(image::guess_format(bytes).unwrap(), ImageFormat::Jpeg);
    assert_eq!(image::load_from_memory(bytes).unwrap().dimensions(), (300, 300));
    assert_eq!(
        run.records[0].cover_image_path,
        Some(format!("/data/covers/{}.jpg", id))
    );
}

#[test]
fn a_cover_that_cannot_be_normalized_is_saved_as_it_is() {
    let raw = b"Not an image".to_vec();
    let run = run("book.epub", Ok(package(None, Some(raw.clone()))), Ok(None), true);
    assert!(run.end.is_ok());
    assert_eq!(run.saved_covers.len(), 1);
    assert_eq!(run.saved_covers[0].1, raw);
    assert!(run.records[0].cover_image_path.is_some());
}

#[test]
fn a_catalog_that_is_down_fails_the_ingestion() {
    let run = run("book.epub", Ok(package(None, None)), Ok(Some(found())), false);
    match run.end {
        Err(EzBooksError::Database(cause)) => assert_eq!(cause, "unable to open database file"),
        other => panic!("{:?}", other),
    }
    assert!(run.records.is_empty());
    assert!(run.subjects.is_empty());
    assert_eq!(run.trace.last(), Some(&"Failed"));
}

#[test]
fn a_document_that_cannot_be_opened_fails_the_ingestion() {
    let run = run("book.epub", Err("Invalid EPub".to_string()), Ok(None), true);
    match run.end {
        Err(EzBooksError::EpubParse(detail)) => {
            assert_eq!(detail, "Failed to open EPUB: Invalid EPub")
        }
        other => panic!("{:?}", other),
    }
    assert_eq!(run.trace, vec!["Received", "Failed"]);
    assert!(run.lookups.is_empty());
    assert!(run.saved_epubs.is_empty());
}

#[test]
fn a_file_that_is_no_epub_is_not_opened() {
    let run = run("book.pdf", Ok(package(None, None)), Ok(None), true);
    assert!(matches!(run.end, Err(EzBooksError::InvalidFormat)));
    assert_eq!(run.trace, vec!["Failed"]);
}

#[test]
fn subjects_are_inserted_in_order_after_the_record() {
    let run = run("BOOK.EPUB", Ok(package(None, None)), Ok(None), true);
    let response = run.end.unwrap();
    assert_eq!(
        run.subjects,
        vec![
            (response.id.clone(), "Fiction".to_string()),
            (response.id.clone(), "Adventure".to_string())
        ]
    );
}

fn draft(cover: Option<Vec<u8>>, subjects: &[&str]) -> Draft {
    Draft {
        book: Book::with_identity("id".to_string(), 1, "T".to_string(), String::new()),
        subjects: subjects.iter().map(|s| s.to_string()).collect(),
        cover,
    }
}

#[test]
fn a_write_that_fails_names_what_was_written() {
    match persist(draft(None, &[]), Progress::SavingEpub, Event::Saved(Err("disk full".to_string()))) {
        Ingestion::Failed(EzBooksError::FileStorage(detail)) => {
            assert_eq!(detail, "Failed to save EPUB file: disk full")
        }
        other => panic!("{:?}", other),
    }
    match persist(
        draft(Some(vec![1]), &[]),
        Progress::SavingCover,
        Event::Saved(Err("disk full".to_string())),
    ) {
        Ingestion::Failed(EzBooksError::FileStorage(detail)) => {
            assert_eq!(detail, "Failed to save cover image: disk full")
        }
        other => panic!("{:?}", other),
    }
    match persist(
        draft(None, &["a", "a"]),
        Progress::InsertingSubject(1),
        Event::Inserted(Err("UNIQUE constraint failed".to_string())),
    ) {
        Ingestion::Failed(EzBooksError::Database(detail)) => {
            assert_eq!(detail, "UNIQUE constraint failed")
        }
        other => panic!("{:?}", other),
    }
}

#[test]
fn an_event_that_answers_nothing_changes_nothing() {
    assert!(matches!(
        Ingestion::Received.step(Event::Proceed),
        Ingestion::Received
    ));
    assert!(matches!(
        Ingestion::Received.step(Event::Inserted(Ok(()))),
        Ingestion::Received
    ));
    match persist(draft(None, &[]), Progress::SavingEpub, Event::Inserted(Ok(()))) {
        Ingestion::CoverReady(d, Progress::SavingEpub) => assert_eq!(d.book.epub_file_path, ""),
        other => panic!("{:?}", other),
    }
    match persist(draft(None, &[]), Progress::InsertingRecord, Event::Saved(Ok("p".to_string()))) {
        Ingestion::CoverReady(d, Progress::InsertingRecord) => {
            assert_eq!(d.book.epub_file_path, "")
        }
        other => panic!("{:?}", other),
    }
    let done = Ingestion::Complete(UploadResponse {
        id: "i".to_string(),
        title: "t".to_string(),
        author: None,
    });
    match done.step(Event::Parsed(Err("x".to_string()))) {
        Ingestion::Complete(r) => assert_eq!(r.id, "i"),
        other => panic!("{:?}", other),
    }
    match Ingestion::Failed(EzBooksError::InvalidFormat).step(Event::Proceed) {
        Ingestion::Failed(EzBooksError::InvalidFormat) => {}
        other => panic!("{:?}", other),
    }
}

#[test]
fn the_state_after_a_step_comes_with_what_it_asks_for() {
    let (state, action) = Ingestion::Received.advance(Event::Parsed(Ok(package(None, None))));
    assert!(matches!(state, Ingestion::Extracted(_)));
    match action {
        Action::Lookup(isbn) => assert_eq!(isbn, "9781234567890"),
        other => panic!("{:?}", other),
    }
    let (state, action) = state.advance(Event::LookedUp(Ok(None)));
    assert!(matches!(state, Ingestion::EnrichmentSkipped(_)));
    assert!(matches!(action, Action::Proceed));
}

#[test]
fn settling_leaves_a_draft_without_cover_as_it_is() {
    let settled = settle_cover(draft(None, &["s"]));
    assert_eq!(settled.cover, None);
    assert_eq!(settled.subjects, vec!["s"]);
    assert_eq!(settled.book.id, "id");
}
