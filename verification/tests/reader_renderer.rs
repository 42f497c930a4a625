use ez_books::book_model::Book;
use ez_books::error::EzBooksError;
use ez_books::reader_renderer::{
    extract_and_sanitize_content, join_chapters, render_content, render_nav, render_reader,
    sanitize_chapters, sanitize_each,
};

fn create_test_book() -> Book {
    Book::new("Test Book".to_string(), "/path/to/book.epub".to_string())
}

fn sanitize_html(html: &str) -> String {
    sanitize_chapters(&vec![Some(html.to_string())])
}

#[test]
fn should_render_complete_reader_page() {
    // Given: A book and content
    let book = create_test_book();
    let content = "<p>Test content</p>".to_string();

    // When: Rendering reader
    let html = render_reader(&book, content);

    // Then: Should contain all necessary elements
    assert!(html.contains("<!DOCTYPE html>"));
    assert!(html.contains("<title>Test Book</title>"));
    assert!(html.contains("reader.css"));
    assert!(html.contains("<nav>"));
    assert!(html.contains("<article>"));
    assert!(html.contains("Test content"));
    assert!(html.contains("</html>"));
}

#[test]
fn should_render_back_link() {
    // Given: A book
    let book = create_test_book();
    let content = String::new();

    // When: Rendering reader
    let html = render_reader(&book, content);

    // Then: Should include back link
    assert!(html.contains(r#"<a href="/">&larr; Back to Library</a>"#));
}

#[test]
fn should_display_book_title_in_nav() {
    // Given: A book with specific title
    let book = create_test_book();
    let content = String::new();

    // When: Rendering reader
    let html = render_reader(&book, content);

    // Then: Should show title in navigation
    assert!(html.contains("<h2>Test Book</h2>"));
}

#[test]
fn should_escape_html_in_title() {
    // Given: A book with HTML characters in title
    let book = Book::new(
        "<script>alert('XSS')</script>".to_string(),
        "/path".to_string(),
    );
    let content = String::new();

    // When: Rendering reader
    let html = render_reader(&book, content);

    // Then: Should escape HTML in title
    assert!(html.contains("&lt;script&gt;"));
    assert!(!html.contains("<script>alert"));
}

#[test]
fn should_wrap_content_in_article() {
    // Given: Some content
    let book = create_test_book();
    let content = "<p>Chapter 1</p><p>Chapter 2</p>".to_string();

    // When: Rendering reader
    let html = render_reader(&book, content);

    // Then: Should wrap in article tags
    assert!(html.contains("<article>"));
    assert!(html.contains("</article>"));
    assert!(html.contains("Chapter 1"));
    assert!(html.contains("Chapter 2"));
}

#[test]
fn should_not_include_javascript() {
    // Given: A book
    let book = create_test_book();
    let content = String::new();

    // When: Rendering reader
    let html = render_reader(&book, content);

    // Then: Should not include any script tags
    assert!(!html.contains("<script"));
}

#[test]
fn should_sanitize_dangerous_html() {
    // Given: HTML with script tags
    let html = r#"<p>Safe content</p><script>alert('XSS')</script><p>More content</p>"#;

    // When: Sanitizing
    let sanitized = sanitize_html(html);

    // Then: Should remove script tags
    assert!(!sanitized.contains("<script"));
    assert!(sanitized.contains("Safe content"));
    assert!(sanitized.contains("More content"));
}

#[test]
fn should_preserve_safe_html_tags() {
    // Given: HTML with safe formatting tags
    let html = r#"<p>This is <strong>bold</strong> and <em>italic</em> text</p>"#;

    // When: Sanitizing
    let sanitized = sanitize_html(html);

    // Then: Should preserve safe tags
    assert!(sanitized.contains("<strong>"));
    assert!(sanitized.contains("<em>"));
    assert!(sanitized.contains("<p>"));
}

#[test]
fn should_sanitize_onclick_attributes() {
    // Given: HTML with onclick attribute
    let html = "<a href=\"#\" onclick=\"alert('XSS')\">Click me</a>";

    // When: Sanitizing
    let sanitized = sanitize_html(html);

    // Then: Should remove onclick attribute
    assert!(!sanitized.contains("onclick"));
    assert!(sanitized.contains("Click me"));
}

#[test]
fn the_reader_page_is_exact() {
    let book = Book::with_identity("1".to_string(), 1, "A<B".to_string(), String::new());
    assert_eq!(
        render_nav("A<B"),
        "<nav>\n    <a href=\"/\">&larr; Back to Library</a>\n    <h2>A&lt;B</h2>\n</nav>"
    );
    assert_eq!(
        render_content("<p>x</p>"),
        "<main>\n    <article>\n<p>x</p>\n    </article>\n</main>"
    );
    let html = render_reader(&book, "<p>x</p>".to_string());
    assert!(html.starts_with("<!DOCTYPE html>\n<html lang=\"en\">"));
    assert!(html.contains("<title>A&lt;B</title>\n    <link rel=\"stylesheet\" href=\"/static/css/reader.css\">\n</head>\n<body><nav>"));
    assert!(html.ends_with("</nav><main>\n    <article>\n<p>x</p>\n    </article>\n</main>\n</body>\n</html>"));
}

#[test]
fn chapters_are_sanitized_and_closed_by_a_rule() {
    let chapters = vec![
        Some("<p>One</p><script>x()</script>".to_string()),
        None,
        Some("Two".to_string()),
    ];
    assert_eq!(
        sanitize_chapters(&chapters),
        "<p>One</p>\n<hr>\nTwo\n<hr>\n"
    );
    assert_eq!(sanitize_chapters(&vec![]), "");
    assert_eq!(sanitize_chapters(&vec![None, None]), "");
    assert_eq!(
        extract_and_sanitize_content(Ok(chapters)).unwrap(),
        "<p>One</p>\n<hr>\nTwo\n<hr>\n"
    );
}

#[test]
fn content_of_a_document_that_cannot_be_opened() {
    match extract_and_sanitize_content(Err("Invalid EPub".to_string())) {
        Err(EzBooksError::EpubParse(detail)) => {
            assert_eq!(detail, "Failed to open EPUB: Invalid EPub")
        }
        other => panic!("{:?}", other),
    }
}

#[test]
fn chapters_are_joined_as_they_are() {
    let chapters = vec![
        Some("<script>x()</script>".to_string()),
        None,
        Some("".to_string()),
    ];
    assert_eq!(
        join_chapters(&chapters),
        "<script>x()</script>\n<hr>\n\n<hr>\n"
    );
    assert_eq!(join_chapters(&vec![]), "");
}

#[test]
fn each_chapter_is_sanitized_in_its_place() {
    let chapters = vec![
        None,
        Some("<b>a</b><script>x()</script>".to_string()),
        Some("plain".to_string()),
    ];
    assert_eq!(
        sanitize_each(&chapters),
        vec![None, Some("<b>a</b>".to_string()), Some("plain".to_string())]
    );
}
