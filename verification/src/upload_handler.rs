//! The ingestion of an uploaded book, as a state machine.
//!
//! An ingestion goes from `Received` through `Extracted`, `Enriched` or
//! `EnrichmentSkipped`, `CoverReady` and `Persisted` to `Complete`, or
//! ends in `Failed`. In each state it asks for one thing to be done
//! outside the library, and steps on with what came of it. Only a
//! document that cannot be opened and a write that fails end it in
//! `Failed`; a lookup that fails and a cover that cannot be normalized
//! do not.

use vstd::prelude::*;
use vstd::string::StringExecFns;
use crate::book_identifier::{
    base_record, book_from_metadata, enrich, enriched, enriches, lemma_enrichment_frame,
    outcome_view, preferred_isbn, LookupOutcome, LookupOutcomeView,
};
use crate::book_model::{is_random_uuid_text, Book, BookView};
use crate::epub_cover_extractor::{cover_artifact, cover_or_raw};
use crate::epub_parser::{entries_view, extract_metadata, metadata_of, MetadataEntry};
use crate::error::{ErrorView, EzBooksError};
use crate::file_storage::{failure_text, storage_failure, ArtifactKind, StorageOp};
use crate::route_handlers::{epub_extension, is_epub_filename};
use crate::text::{copy_text, lowercase_of};

verus! {

/// What the caller of an ingestion is told of the book taken in.
#[derive(Debug)]
pub struct UploadResponse {
    pub id: String,
    pub title: String,
    pub author: Option<String>,
}

/// The model of a confirmation.
pub struct UploadResponseView {
    pub id: Seq<char>,
    pub title: Seq<char>,
    pub author: Option<Seq<char>>,
}

impl View for UploadResponse {
    type V = UploadResponseView;

    open spec fn view(&self) -> UploadResponseView {
        UploadResponseView { id: self.id@, title: self.title@, author: self.author.deep_view() }
    }
}

/// What opening a document gives: the entries of its metadata, and its
/// embedded cover where it has one.
#[derive(Debug)]
pub struct Package {
    pub entries: Vec<MetadataEntry>,
    pub cover: Option<Vec<u8>>,
}

/// The model of an opened document.
pub struct PackageView {
    pub entries: Seq<(Seq<char>, Seq<char>)>,
    pub cover: Option<Seq<u8>>,
}

/// The bytes of an optional file.
pub open spec fn bytes_view(bytes: Option<Vec<u8>>) -> Option<Seq<u8>> {
    match bytes {
        Some(b) => Some(b@),
        None => None,
    }
}

impl View for Package {
    type V = PackageView;

    open spec fn view(&self) -> PackageView {
        PackageView { entries: entries_view(self.entries@), cover: bytes_view(self.cover) }
    }
}

/// A book on its way into the catalog: its record, the subjects of its
/// document, and its cover where it has one.
#[derive(Debug)]
pub struct Draft {
    pub book: Book,
    pub subjects: Vec<String>,
    pub cover: Option<Vec<u8>>,
}

/// The model of a draft.
pub struct DraftView {
    pub book: BookView,
    pub subjects: Seq<Seq<char>>,
    pub cover: Option<Seq<u8>>,
}

impl View for Draft {
    type V = DraftView;

    open spec fn view(&self) -> DraftView {
        DraftView {
            book: self.book@,
            subjects: self.subjects.deep_view(),
            cover: bytes_view(self.cover),
        }
    }
}

/// Which write of the persisting stage is due.
#[derive(Debug, Clone, Copy, PartialEq, Eq, Structural)]
pub enum Progress {
    SavingEpub,
    SavingCover,
    InsertingRecord,
    InsertingSubject(usize),
}

/// The state of an ingestion.
#[derive(Debug)]
pub enum Ingestion {
    /// The upload is accepted; its document is to be opened.
    Received,
    /// The metadata is read; the lookup is due, if the book has an ISBN.
    Extracted(Draft),
    /// The record has taken over what the lookup found.
    Enriched(Draft),
    /// The record stays as the document gave it.
    EnrichmentSkipped(Draft),
    /// The cover is settled; the writes are under way.
    CoverReady(Draft, Progress),
    /// Everything is written.
    Persisted(Draft),
    /// The caller has its confirmation.
    Complete(UploadResponse),
    /// The ingestion is abandoned.
    Failed(EzBooksError),
}

/// The model of the state of an ingestion.
pub enum IngestionView {
    Received,
    Extracted(DraftView),
    Enriched(DraftView),
    EnrichmentSkipped(DraftView),
    CoverReady(DraftView, Progress),
    Persisted(DraftView),
    Complete(UploadResponseView),
    Failed(ErrorView),
}

impl View for Ingestion {
    type V = IngestionView;

    open spec fn view(&self) -> IngestionView {
        match *self {
            Ingestion::Received => IngestionView::Received,
            Ingestion::Extracted(d) => IngestionView::Extracted(d@),
            Ingestion::Enriched(d) => IngestionView::Enriched(d@),
            Ingestion::EnrichmentSkipped(d) => IngestionView::EnrichmentSkipped(d@),
            Ingestion::CoverReady(d, p) => IngestionView::CoverReady(d@, p),
            Ingestion::Persisted(d) => IngestionView::Persisted(d@),
            Ingestion::Complete(r) => IngestionView::Complete(r@),
            Ingestion::Failed(e) => IngestionView::Failed(e@),
        }
    }
}

/// What came of the work that an ingestion asked for.
#[derive(Debug)]
pub enum Event {
    /// The document was opened, or could not be, for the cause given.
    Parsed(Result<Package, String>),
    /// The lookup ended.
    LookedUp(LookupOutcome),
    /// A file was saved at the place given, or could not be, for the cause
    /// given.
    Saved(Result<String, String>),
    /// A row was inserted, or could not be, for the cause given.
    Inserted(Result<(), String>),
    /// Nothing was asked for.
    Proceed,
}

/// The model of an event.
pub enum EventView {
    Parsed(Result<PackageView, Seq<char>>),
    LookedUp(LookupOutcomeView),
    Saved(Result<Seq<char>, Seq<char>>),
    Inserted(Result<(), Seq<char>>),
    Proceed,
}

impl View for Event {
    type V = EventView;

    open spec fn view(&self) -> EventView {
        match *self {
            Event::Parsed(Ok(package)) => EventView::Parsed(Ok(package@)),
            Event::Parsed(Err(cause)) => EventView::Parsed(Err(cause@)),
            Event::LookedUp(outcome) => EventView::LookedUp(outcome_view(outcome)),
            Event::Saved(Ok(place)) => EventView::Saved(Ok(place@)),
            Event::Saved(Err(cause)) => EventView::Saved(Err(cause@)),
            Event::Inserted(Ok(_)) => EventView::Inserted(Ok(())),
            Event::Inserted(Err(cause)) => EventView::Inserted(Err(cause@)),
            Event::Proceed => EventView::Proceed,
        }
    }
}

/// What an ingestion asks to be done outside the library.
#[derive(Debug)]
pub enum Action {
    /// Open the uploaded document.
    ParseDocument,
    /// Look the book up by this ISBN, once, within the time limit.
    Lookup(String),
    /// Save the uploaded bytes as the EPUB of the book with this
    /// identifier.
    SaveEpub(String),
    /// Save these bytes as the cover of the book with this identifier.
    SaveCover(String, Vec<u8>),
    /// Insert this record into the catalog.
    InsertRecord(Book),
    /// Insert this subject for the book with this identifier.
    InsertSubject(String, String),
    /// Hand the confirmation to the caller.
    Respond(UploadResponse),
    /// Hand the error to the caller.
    Fail(EzBooksError),
    /// Nothing: step on.
    Proceed,
}

/// The model of an action.
pub enum ActionView {
    ParseDocument,
    Lookup(Seq<char>),
    SaveEpub(Seq<char>),
    SaveCover(Seq<char>, Seq<u8>),
    InsertRecord(BookView),
    InsertSubject(Seq<char>, Seq<char>),
    Respond(UploadResponseView),
    Fail(ErrorView),
    Proceed,
}

impl View for Action {
    type V = ActionView;

    open spec fn view(&self) -> ActionView {
        match *self {
            Action::ParseDocument => ActionView::ParseDocument,
            Action::Lookup(isbn) => ActionView::Lookup(isbn@),
            Action::SaveEpub(id) => ActionView::SaveEpub(id@),
            Action::SaveCover(id, bytes) => ActionView::SaveCover(id@, bytes@),
            Action::InsertRecord(book) => ActionView::InsertRecord(book@),
            Action::InsertSubject(id, subject) => ActionView::InsertSubject(id@, subject@),
            Action::Respond(response) => ActionView::Respond(response@),
            Action::Fail(error) => ActionView::Fail(error@),
            Action::Proceed => ActionView::Proceed,
        }
    }
}

/// The draft made of an opened document, under the identifier `id`,
/// created at `now`. The place of its file is not known yet.
pub open spec fn drafted(package: PackageView, id: Seq<char>, now: i64) -> DraftView {
    let metadata = metadata_of(package.entries);
    DraftView {
        book: base_record(metadata, id, now, Seq::empty()),
        subjects: metadata.subjects,
        cover: package.cover,
    }
}

/// The draft with its cover settled: normalized, or as it is where it
/// cannot be normalized.
pub open spec fn with_cover_settled(draft: DraftView) -> DraftView {
    DraftView {
        cover: match draft.cover {
            Some(raw) => Some(cover_artifact(raw)),
            None => None,
        },
        ..draft
    }
}

/// The confirmation for a book.
pub open spec fn response_of(book: BookView) -> UploadResponseView {
    UploadResponseView { id: book.id, title: book.title, author: book.author }
}

/// Where an ingestion stands when the subjects before `index` are
/// inserted: at the next subject, or at the end of the writes.
pub open spec fn at_subject(draft: DraftView, index: int) -> IngestionView {
    if 0 <= index < draft.subjects.len() && index <= usize::MAX {
        IngestionView::CoverReady(draft, Progress::InsertingSubject(index as usize))
    } else {
        IngestionView::Persisted(draft)
    }
}

/// The state after one write of the persisting stage.
pub open spec fn persisted_step(draft: DraftView, progress: Progress, event: EventView) -> IngestionView {
    match progress {
        Progress::SavingEpub => match event {
            EventView::Saved(Ok(place)) => IngestionView::CoverReady(
                DraftView { book: BookView { epub_file_path: place, ..draft.book }, ..draft },
                if draft.cover is Some {
                    Progress::SavingCover
                } else {
                    Progress::InsertingRecord
                },
            ),
            EventView::Saved(Err(cause)) => IngestionView::Failed(
                ErrorView::FileStorage(failure_text(StorageOp::Save, ArtifactKind::Epub, cause)),
            ),
            _ => IngestionView::CoverReady(draft, progress),
        },
        Progress::SavingCover => match event {
            EventView::Saved(Ok(place)) => IngestionView::CoverReady(
                DraftView {
                    book: BookView { cover_image_path: Some(place), ..draft.book },
                    ..draft
                },
                Progress::InsertingRecord,
            ),
            EventView::Saved(Err(cause)) => IngestionView::Failed(
                ErrorView::FileStorage(failure_text(StorageOp::Save, ArtifactKind::Cover, cause)),
            ),
            EventView::Proceed => if draft.cover is None {
                IngestionView::CoverReady(draft, Progress::InsertingRecord)
            } else {
                IngestionView::CoverReady(draft, progress)
            },
            _ => IngestionView::CoverReady(draft, progress),
        },
        Progress::InsertingRecord => match event {
            EventView::Inserted(Ok(_)) => at_subject(draft, 0),
            EventView::Inserted(Err(cause)) => IngestionView::Failed(ErrorView::Database(cause)),
            _ => IngestionView::CoverReady(draft, progress),
        },
        Progress::InsertingSubject(index) => match event {
            EventView::Inserted(Ok(_)) => at_subject(draft, index + 1),
            EventView::Inserted(Err(cause)) => IngestionView::Failed(ErrorView::Database(cause)),
            EventView::Proceed => if index >= draft.subjects.len() {
                IngestionView::Persisted(draft)
            } else {
                IngestionView::CoverReady(draft, progress)
            },
            _ => IngestionView::CoverReady(draft, progress),
        },
    }
}

/// The state that follows `state` on `event`. A document that is opened
/// in `Received` gets the identifier `id` and the time `now`. An event
/// that answers nothing the state asked for leaves the state as it is.
pub open spec fn next_state(state: IngestionView, event: EventView, id: Seq<char>, now: i64) -> IngestionView {
    match state {
        IngestionView::Received => match event {
            EventView::Parsed(Ok(package)) => IngestionView::Extracted(drafted(package, id, now)),
            EventView::Parsed(Err(cause)) => IngestionView::Failed(
                ErrorView::EpubParse("Failed to open EPUB: "@ + cause),
            ),
            _ => state,
        },
        IngestionView::Extracted(draft) => match event {
            EventView::LookedUp(outcome) => if enriches(draft.book, outcome) {
                IngestionView::Enriched(
                    DraftView { book: enriched(draft.book, Some(outcome)), ..draft },
                )
            } else {
                IngestionView::EnrichmentSkipped(draft)
            },
            EventView::Proceed => IngestionView::EnrichmentSkipped(draft),
            _ => state,
        },
        IngestionView::Enriched(draft) => match event {
            EventView::Proceed => IngestionView::CoverReady(
                with_cover_settled(draft),
                Progress::SavingEpub,
            ),
            _ => state,
        },
        IngestionView::EnrichmentSkipped(draft) => match event {
            EventView::Proceed => IngestionView::CoverReady(
                with_cover_settled(draft),
                Progress::SavingEpub,
            ),
            _ => state,
        },
        IngestionView::CoverReady(draft, progress) => persisted_step(draft, progress, event),
        IngestionView::Persisted(draft) => match event {
            EventView::Proceed => IngestionView::Complete(response_of(draft.book)),
            _ => state,
        },
        IngestionView::Complete(_) => state,
        IngestionView::Failed(_) => state,
    }
}

/// What `state` asks to be done.
pub open spec fn action_of(state: IngestionView) -> ActionView {
    match state {
        IngestionView::Received => ActionView::ParseDocument,
        IngestionView::Extracted(draft) => match preferred_isbn(draft.book) {
            Some(isbn) => ActionView::Lookup(isbn),
            None => ActionView::Proceed,
        },
        IngestionView::Enriched(_) => ActionView::Proceed,
        IngestionView::EnrichmentSkipped(_) => ActionView::Proceed,
        IngestionView::CoverReady(draft, progress) => match progress {
            Progress::SavingEpub => ActionView::SaveEpub(draft.book.id),
            Progress::SavingCover => match draft.cover {
                Some(bytes) => ActionView::SaveCover(draft.book.id, bytes),
                None => ActionView::Proceed,
            },
            Progress::InsertingRecord => ActionView::InsertRecord(draft.book),
            Progress::InsertingSubject(index) => if index < draft.subjects.len() {
                ActionView::InsertSubject(draft.book.id, draft.subjects[index as int])
            } else {
                ActionView::Proceed
            },
        },
        IngestionView::Persisted(_) => ActionView::Proceed,
        IngestionView::Complete(response) => ActionView::Respond(response),
        IngestionView::Failed(error) => ActionView::Fail(error),
    }
}

impl IngestionView {
    /// The identifier of the book of this ingestion, while it has one.
    pub open spec fn book_id(self) -> Seq<char> {
        match self {
            IngestionView::Extracted(d) => d.book.id,
            IngestionView::Enriched(d) => d.book.id,
            IngestionView::EnrichmentSkipped(d) => d.book.id,
            IngestionView::CoverReady(d, _) => d.book.id,
            IngestionView::Persisted(d) => d.book.id,
            IngestionView::Complete(r) => r.id,
            _ => Seq::empty(),
        }
    }

    /// The time at which the book of this ingestion was created.
    pub open spec fn created_at(self) -> i64 {
        match self {
            IngestionView::Extracted(d) => d.book.created_at,
            IngestionView::Enriched(d) => d.book.created_at,
            IngestionView::EnrichmentSkipped(d) => d.book.created_at,
            IngestionView::CoverReady(d, _) => d.book.created_at,
            IngestionView::Persisted(d) => d.book.created_at,
            _ => 0,
        }
    }

    /// How far the ingestion has come, `Failed` being the end of every
    /// way.
    pub open spec fn rank(self) -> int {
        match self {
            IngestionView::Received => 0,
            IngestionView::Extracted(_) => 1,
            IngestionView::Enriched(_) => 2,
            IngestionView::EnrichmentSkipped(_) => 2,
            IngestionView::CoverReady(_, _) => 3,
            IngestionView::Persisted(_) => 4,
            IngestionView::Complete(_) => 5,
            IngestionView::Failed(_) => 6,
        }
    }

    /// The write that is due is one that the draft calls for: a cover is
    /// saved only where there is one, and a subject inserted only where
    /// there is one at that index.
    pub open spec fn wf(self) -> bool {
        match self {
            IngestionView::CoverReady(d, Progress::SavingCover) => d.cover is Some,
            IngestionView::CoverReady(d, Progress::InsertingSubject(i)) => i < d.subjects.len(),
            _ => true,
        }
    }

    /// Whether the state asks for a write to the file store or to the
    /// catalog.
    pub open spec fn asks_to_write(self) -> bool {
        let action = action_of(self);
        action is SaveEpub || action is SaveCover || action is InsertRecord
            || action is InsertSubject
    }
}

/// No lookup fails an ingestion: whatever a lookup ends in, and also
/// where none is made, the ingestion goes on, enriched or not.
pub proof fn lemma_lookup_never_fails(draft: DraftView, event: EventView, id: Seq<char>, now: i64)
    requires
        event is LookedUp || event is Proceed,
    ensures
        next_state(IngestionView::Extracted(draft), event, id, now) is Enriched || next_state(
            IngestionView::Extracted(draft),
            event,
            id,
            now,
        ) is EnrichmentSkipped,
        !(event matches EventView::LookedUp(Ok(Some(_)))) ==> next_state(
            IngestionView::Extracted(draft),
            event,
            id,
            now,
        ) == IngestionView::EnrichmentSkipped(draft),
{
}

/// An ingestion fails only where its document cannot be opened or a
/// write fails.
pub proof fn lemma_failures(state: IngestionView, event: EventView, id: Seq<char>, now: i64)
    requires
        !(state is Failed),
        next_state(state, event, id, now) is Failed,
    ensures
        (state is Received && event matches EventView::Parsed(Err(_))) || (state is CoverReady && (
        event matches EventView::Saved(Err(_)) || event matches EventView::Inserted(Err(_)))),
        next_state(state, event, id, now)->Failed_0.is_fatal(),
{
}

/// Nothing is written before the cover is settled, and so not before the
/// record is enriched or enrichment is skipped.
pub proof fn lemma_writes_only_when_cover_ready(state: IngestionView)
    ensures
        state.asks_to_write() ==> state is CoverReady,
{
}

/// An ingestion never goes back, and what it asks for is always well
/// formed.
pub proof fn lemma_progress(state: IngestionView, event: EventView, id: Seq<char>, now: i64)
    requires
        state.wf(),
    ensures
        next_state(state, event, id, now).wf(),
        next_state(state, event, id, now).rank() >= state.rank(),
        state is Complete || state is Failed ==> next_state(state, event, id, now) == state,
{
}

/// A document without an embedded cover gets no cover: none is saved, and
/// the record names none.
pub proof fn lemma_no_cover(draft: DraftView, event: EventView, id: Seq<char>, now: i64)
    requires
        draft.cover is None,
        draft.book.cover_image_path is None,
    ensures
        with_cover_settled(draft).cover is None,
        next_state(
            IngestionView::CoverReady(draft, Progress::SavingEpub),
            event,
            id,
            now,
        ) matches IngestionView::CoverReady(d, p) ==> p != Progress::SavingCover
            && d.book.cover_image_path is None && d.cover is None,
{
}

/// Once the cover is settled the record changes only by the places of
/// its files: what was extracted and enriched is what is written.
pub proof fn lemma_record_settled(
    draft: DraftView,
    progress: Progress,
    event: EventView,
    id: Seq<char>,
    now: i64,
)
    ensures
        match next_state(IngestionView::CoverReady(draft, progress), event, id, now) {
            IngestionView::CoverReady(d, _) => d.subjects == draft.subjects && d.cover
                == draft.cover && (BookView {
                epub_file_path: draft.book.epub_file_path,
                cover_image_path: draft.book.cover_image_path,
                ..d.book
            }) == draft.book,
            IngestionView::Persisted(d) => d == draft,
            IngestionView::Failed(_) => true,
            _ => false,
        },
{
}

/// The identifier of a book and the time of its creation are given once,
/// when its document is opened, and stay as they are to the end.
pub proof fn lemma_identity_stable(state: IngestionView, event: EventView, id: Seq<char>, now: i64)
    requires
        !(state is Received),
        !(next_state(state, event, id, now) is Failed),
    ensures
        next_state(state, event, id, now).book_id() == state.book_id(),
        !(next_state(state, event, id, now) is Complete) ==> next_state(
            state,
            event,
            id,
            now,
        ).created_at() == state.created_at(),
{
    if let IngestionView::Extracted(draft) = state {
        if let EventView::LookedUp(outcome) = event {
            lemma_enrichment_frame(draft.book, Some(outcome));
        }
    }
}

/// A copy of some bytes.
fn copy_bytes(bytes: &Vec<u8>) -> (copy: Vec<u8>)
    ensures
        copy@ == bytes@,
{
    let copy = bytes.clone();
    assert(copy@ =~= bytes@);
    copy
}

impl Ingestion {
    /// The ingestion of an upload under the name `filename`: `Received`,
    /// or `Failed` as of invalid format where the name does not end in
    /// `.epub`, in any letter case.
    pub fn receive(filename: &str) -> (state: Ingestion)
        ensures
            state@ == if epub_extension().is_suffix_of(lowercase_of(filename@)) {
                IngestionView::Received
            } else {
                IngestionView::Failed(ErrorView::InvalidFormat)
            },
    {
        if is_epub_filename(filename) {
            Ingestion::Received
        } else {
            Ingestion::Failed(EzBooksError::InvalidFormat)
        }
    }

    /// What this state asks to be done.
    pub fn action(&self) -> (action: Action)
        ensures
            action@ == action_of(self@),
    {
        match self {
            Ingestion::Received => Action::ParseDocument,
            Ingestion::Extracted(draft) => {
                if draft.book.isbn_13.is_some() {
                    match &draft.book.isbn_13 {
                        Some(isbn) => Action::Lookup(isbn.clone()),
                        None => Action::Proceed,
                    }
                } else {
                    match &draft.book.isbn_10 {
                        Some(isbn) => Action::Lookup(isbn.clone()),
                        None => Action::Proceed,
                    }
                }
            },
            Ingestion::Enriched(_) => Action::Proceed,
            Ingestion::EnrichmentSkipped(_) => Action::Proceed,
            Ingestion::CoverReady(draft, progress) => match progress {
                Progress::SavingEpub => Action::SaveEpub(draft.book.id.clone()),
                Progress::SavingCover => match &draft.cover {
                    Some(bytes) => Action::SaveCover(draft.book.id.clone(), copy_bytes(bytes)),
                    None => Action::Proceed,
                },
                Progress::InsertingRecord => Action::InsertRecord(draft.book.clone()),
                Progress::InsertingSubject(index) => {
                    if *index < draft.subjects.len() {
                        Action::InsertSubject(
                            draft.book.id.clone(),
                            draft.subjects[*index].clone(),
                        )
                    } else {
                        Action::Proceed
                    }
                },
            },
            Ingestion::Persisted(_) => Action::Proceed,
            Ingestion::Complete(response) => Action::Respond(
                UploadResponse {
                    id: response.id.clone(),
                    title: response.title.clone(),
                    author: copy_text(&response.author),
                },
            ),
            Ingestion::Failed(error) => Action::Fail(copy_error(error)),
        }
    }

    /// The state that follows this one on `event`. The book of a document
    /// that is opened gets a new random identifier and the time of now.
    pub fn step(self, event: Event) -> (next: Ingestion)
        ensures
            next@ == next_state(self@, event@, next@.book_id(), next@.created_at()),
            self is Received && next is Extracted ==> is_random_uuid_text(next@.book_id())
                && next@.created_at() >= 0,
    {
        match self {
            Ingestion::Received => match event {
                Event::Parsed(Ok(package)) => {
                    let mut metadata = extract_metadata(&package.entries);
                    let fresh = Book::new(String::new(), String::new());
                    let mut subjects: Vec<String> = Vec::new();
                    std::mem::swap(&mut subjects, &mut metadata.subjects);
                    let book = book_from_metadata(
                        metadata,
                        fresh.id,
                        fresh.created_at,
                        String::new(),
                    );
                    Ingestion::Extracted(Draft { book, subjects, cover: package.cover })
                },
                Event::Parsed(Err(cause)) => Ingestion::Failed(
                    EzBooksError::EpubParse(
                        String::from_str("Failed to open EPUB: ").concat(cause.as_str()),
                    ),
                ),
                _ => Ingestion::Received,
            },
            Ingestion::Extracted(draft) => match event {
                Event::LookedUp(outcome) => {
                    let mut draft = draft;
                    if enrich(&mut draft.book, outcome) {
                        Ingestion::Enriched(draft)
                    } else {
                        Ingestion::EnrichmentSkipped(draft)
                    }
                },
                Event::Proceed => Ingestion::EnrichmentSkipped(draft),
                _ => Ingestion::Extracted(draft),
            },
            Ingestion::Enriched(draft) => match event {
                Event::Proceed => Ingestion::CoverReady(settle_cover(draft), Progress::SavingEpub),
                _ => Ingestion::Enriched(draft),
            },
            Ingestion::EnrichmentSkipped(draft) => match event {
                Event::Proceed => Ingestion::CoverReady(settle_cover(draft), Progress::SavingEpub),
                _ => Ingestion::EnrichmentSkipped(draft),
            },
            Ingestion::CoverReady(draft, progress) => persist(draft, progress, event),
            Ingestion::Persisted(draft) => match event {
                Event::Proceed => Ingestion::Complete(
                    UploadResponse {
                        id: draft.book.id,
                        title: draft.book.title,
                        author: draft.book.author,
                    },
                ),
                _ => Ingestion::Persisted(draft),
            },
            Ingestion::Complete(response) => Ingestion::Complete(response),
            Ingestion::Failed(error) => Ingestion::Failed(error),
        }
    }

    /// The state that follows this one on `event`, with what it asks for.
    pub fn advance(self, event: Event) -> (next: (Ingestion, Action))
        ensures
            next.0@ == next_state(self@, event@, next.0@.book_id(), next.0@.created_at()),
            next.1@ == action_of(next.0@),
    {
        let state = self.step(event);
        let action = state.action();
        (state, action)
    }
}

/// A copy of an error.
pub fn copy_error(error: &EzBooksError) -> (copy: EzBooksError)
    ensures
        copy@ == error@,
{
    match error {
        EzBooksError::Database(m) => EzBooksError::Database(m.clone()),
        EzBooksError::EpubParse(m) => EzBooksError::EpubParse(m.clone()),
        EzBooksError::OpenLibraryApi(m) => EzBooksError::OpenLibraryApi(m.clone()),
        EzBooksError::Io(m) => EzBooksError::Io(m.clone()),
        EzBooksError::BookNotFound(m) => EzBooksError::BookNotFound(m.clone()),
        EzBooksError::InvalidFormat => EzBooksError::InvalidFormat,
        EzBooksError::FileStorage(m) => EzBooksError::FileStorage(m.clone()),
        EzBooksError::ImageProcessing(m) => EzBooksError::ImageProcessing(m.clone()),
        EzBooksError::HttpRequest(m) => EzBooksError::HttpRequest(m.clone()),
        EzBooksError::JsonSerialization(m) => EzBooksError::JsonSerialization(m.clone()),
    }
}

/// Settles the cover of a draft: normalized, or as it is where it cannot
/// be normalized.
pub fn settle_cover(draft: Draft) -> (settled: Draft)
    ensures
        settled@ == with_cover_settled(draft@),
{
    let Draft { book, subjects, cover } = draft;
    let cover = match cover {
        Some(raw) => Some(cover_or_raw(raw)),
        None => None,
    };
    Draft { book, subjects, cover }
}

/// Where an ingestion stands when the subjects before `index` are
/// inserted.
fn subject_stage(draft: Draft, index: usize) -> (next: Ingestion)
    ensures
        next@ == at_subject(draft@, index as int),
{
    if index < draft.subjects.len() {
        Ingestion::CoverReady(draft, Progress::InsertingSubject(index))
    } else {
        Ingestion::Persisted(draft)
    }
}

/// The state after one write of the persisting stage.
pub fn persist(draft: Draft, progress: Progress, event: Event) -> (next: Ingestion)
    ensures
        next@ == persisted_step(draft@, progress, event@),
{
    let mut draft = draft;
    match progress {
        Progress::SavingEpub => match event {
            Event::Saved(Ok(place)) => {
                draft.book.epub_file_path = place;
                let then = if draft.cover.is_some() {
                    Progress::SavingCover
                } else {
                    Progress::InsertingRecord
                };
                Ingestion::CoverReady(draft, then)
            },
            Event::Saved(Err(cause)) => Ingestion::Failed(
                storage_failure(StorageOp::Save, ArtifactKind::Epub, cause.as_str()),
            ),
            _ => Ingestion::CoverReady(draft, progress),
        },
        Progress::SavingCover => match event {
            Event::Saved(Ok(place)) => {
                draft.book.cover_image_path = Some(place);
                Ingestion::CoverReady(draft, Progress::InsertingRecord)
            },
            Event::Saved(Err(cause)) => Ingestion::Failed(
                storage_failure(StorageOp::Save, ArtifactKind::Cover, cause.as_str()),
            ),
            Event::Proceed => {
                if draft.cover.is_none() {
                    Ingestion::CoverReady(draft, Progress::InsertingRecord)
                } else {
                    Ingestion::CoverReady(draft, progress)
                }
            },
            _ => Ingestion::CoverReady(draft, progress),
        },
        Progress::InsertingRecord => match event {
            Event::Inserted(Ok(_)) => subject_stage(draft, 0),
            Event::Inserted(Err(cause)) => Ingestion::Failed(EzBooksError::Database(cause)),
            _ => Ingestion::CoverReady(draft, progress),
        },
        Progress::InsertingSubject(index) => match event {
            Event::Inserted(Ok(_)) => {
                if index < draft.subjects.len() {
                    subject_stage(draft, index + 1)
                } else {
                    Ingestion::Persisted(draft)
                }
            },
            Event::Inserted(Err(cause)) => Ingestion::Failed(EzBooksError::Database(cause)),
            Event::Proceed => {
                if index >= draft.subjects.len() {
                    Ingestion::Persisted(draft)
                } else {
                    Ingestion::CoverReady(draft, progress)
                }
            },
            _ => Ingestion::CoverReady(draft, progress),
        },
    }
}

} // verus!
