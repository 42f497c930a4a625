use ez_books::error::EzBooksError;
use ez_books::upload_handler::copy_error;

#[test]
fn errors_describe_themselves() {
    let m = || "x".to_string();
    assert_eq!(EzBooksError::Database(m()).to_text(), "Database error: x");
    assert_eq!(EzBooksError::EpubParse(m()).to_text(), "EPUB parsing error: x");
    assert_eq!(
        EzBooksError::OpenLibraryApi(m()).to_text(),
        "OpenLibrary API error: x"
    );
    assert_eq!(EzBooksError::Io(m()).to_text(), "IO error: x");
    assert_eq!(EzBooksError::BookNotFound(m()).to_text(), "Book not found: x");
    assert_eq!(EzBooksError::InvalidFormat.to_text(), "Invalid file format");
    assert_eq!(EzBooksError::FileStorage(m()).to_text(), "File storage error: x");
    assert_eq!(
        EzBooksError::ImageProcessing(m()).to_text(),
        "Image processing error: x"
    );
    assert_eq!(EzBooksError::HttpRequest(m()).to_text(), "HTTP request error: x");
    assert_eq!(
        EzBooksError::JsonSerialization(m()).to_text(),
        "JSON serialization error: x"
    );
}

#[test]
fn lookup_and_image_errors_are_absorbed() {
    let m = || "x".to_string();
    assert!(!EzBooksError::OpenLibraryApi(m()).is_fatal());
    assert!(!EzBooksError::HttpRequest(m()).is_fatal());
    assert!(!EzBooksError::ImageProcessing(m()).is_fatal());
    assert!(EzBooksError::EpubParse(m()).is_fatal());
    assert!(EzBooksError::Database(m()).is_fatal());
    assert!(EzBooksError::FileStorage(m()).is_fatal());
    assert!(EzBooksError::Io(m()).is_fatal());
    assert!(EzBooksError::InvalidFormat.is_fatal());
    assert!(EzBooksError::BookNotFound(m()).is_fatal());
    assert!(EzBooksError::JsonSerialization(m()).is_fatal());
}

#[test]
fn a_copied_error_says_the_same() {
    let errors = vec![
        EzBooksError::Database("a".to_string()),
        EzBooksError::InvalidFormat,
        EzBooksError::ImageProcessing("b".to_string()),
    ];
    for error in &errors {
        assert_eq!(copy_error(error).to_text(), error.to_text());
    }
}
