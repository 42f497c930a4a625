use ez_books::error::EzBooksError;
use ez_books::file_storage::{
    removal_result, storage_failure, ArtifactKind, FileStorage, StorageOp,
};

#[test]
fn files_are_placed_by_kind_and_book() {
    let storage = FileStorage::new("/data".to_string());
    assert_eq!(
        storage.epub_path("test-book-id"),
        vec!["/data", "books", "test-book-id.epub"]
    );
    assert_eq!(
        storage.cover_path("test-book-id"),
        vec!["/data", "covers", "test-book-id.jpg"]
    );
    assert_eq!(
        storage.artifact_path(ArtifactKind::Cover, ""),
        vec!["/data", "covers", ".jpg"]
    );
    assert_eq!(ArtifactKind::Epub.directory(), "books");
    assert_eq!(ArtifactKind::Cover.directory(), "covers");
    assert_eq!(ArtifactKind::Epub.file_name("a"), "a.epub");
    assert_eq!(ArtifactKind::Cover.file_name("a"), "a.jpg");
}

#[test]
fn failures_name_what_was_tried() {
    let detail = |op, kind| match storage_failure(op, kind, "denied") {
        EzBooksError::FileStorage(detail) => detail,
        other => panic!("{:?}", other),
    };
    assert_eq!(
        detail(StorageOp::Save, ArtifactKind::Epub),
        "Failed to save EPUB file: denied"
    );
    assert_eq!(
        detail(StorageOp::Read, ArtifactKind::Epub),
        "Failed to read EPUB file: denied"
    );
    assert_eq!(
        detail(StorageOp::Delete, ArtifactKind::Epub),
        "Failed to delete EPUB file: denied"
    );
    assert_eq!(
        detail(StorageOp::Save, ArtifactKind::Cover),
        "Failed to save cover image: denied"
    );
    assert_eq!(
        detail(StorageOp::Read, ArtifactKind::Cover),
        "Failed to read cover image: denied"
    );
    assert_eq!(
        detail(StorageOp::Delete, ArtifactKind::Cover),
        "Failed to delete cover image: denied"
    );
}

#[test]
fn removing_a_file_that_is_not_there_is_no_error() {
    assert!(removal_result(ArtifactKind::Epub, None).is_ok());
    assert!(removal_result(ArtifactKind::Cover, None).is_ok());
    assert!(removal_result(ArtifactKind::Epub, Some(Ok(()))).is_ok());
    match removal_result(ArtifactKind::Cover, Some(Err("denied".to_string()))) {
        Err(EzBooksError::FileStorage(detail)) => {
            assert_eq!(detail, "Failed to delete cover image: denied")
        }
        other => panic!("{:?}", other),
    }
}

#[test]
fn should_generate_correct_file_paths() {
    // Given: A file storage
    let storage = FileStorage::new("/data".to_string());
    let book_id = "test-book-id";

    // When: Naming the places of the files
    let epub_path = storage.epub_path(book_id).join("/");
    let cover_path = storage.cover_path(book_id).join("/");

    // Then: Paths should be correct
    assert!(epub_path.contains("books"));
    assert!(epub_path.ends_with(".epub"));
    assert!(cover_path.contains("covers"));
    assert!(cover_path.ends_with(".jpg"));
}

#[test]
fn should_handle_deleting_non_existent_epub_gracefully() {
    // Given: An EPUB that is not in the store
    let removal = None;

    // When: Deciding what its removal amounts to
    let result = removal_result(ArtifactKind::Epub, removal);

    // Then: Should succeed (idempotent)
    assert!(result.is_ok());
}
