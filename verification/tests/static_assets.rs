use ez_books::static_assets::{
    asset_response, StaticAssets, GALLERY_CSS, READER_CSS, UPLOAD_JS,
};

fn content_type_for(path: &str) -> String {
    asset_response(path, Some(vec![])).unwrap().content_type
}

#[test]
fn should_embed_css_files() {
    // Given: The static assets are embedded
    // When: Accessing CSS files
    let gallery_css = StaticAssets::get("css/gallery.css");
    let reader_css = StaticAssets::get("css/reader.css");

    // Then: Files should be embedded
    assert!(gallery_css.is_some());
    assert!(reader_css.is_some());
}

#[test]
fn should_embed_javascript_files() {
    // Given: The static assets are embedded
    // When: Accessing JavaScript files
    let upload_js = StaticAssets::get("js/upload.js");

    // Then: File should be embedded
    assert!(upload_js.is_some());
}

#[test]
fn should_return_none_for_non_existent_files() {
    // Given: The static assets are embedded
    // When: Accessing a non-existent file
    let result = StaticAssets::get("non-existent.txt");

    // Then: Should return None
    assert!(result.is_none());
}

#[test]
fn should_handle_nested_paths() {
    // Given: Nested file paths
    // When: Accessing files in subdirectories
    let nested_css = StaticAssets::get("css/gallery.css");
    let nested_js = StaticAssets::get("js/upload.js");

    // Then: Should find files in subdirectories
    assert!(nested_css.is_some());
    assert!(nested_js.is_some());
}

#[test]
fn each_path_has_its_own_file() {
    assert_eq!(StaticAssets::get("css/gallery.css"), Some(GALLERY_CSS));
    assert_eq!(StaticAssets::get("css/reader.css"), Some(READER_CSS));
    assert_eq!(StaticAssets::get("js/upload.js"), Some(UPLOAD_JS));
    assert_eq!(StaticAssets::get("/css/gallery.css"), None);
    assert_eq!(StaticAssets::get("css/Gallery.css"), None);
    assert_eq!(StaticAssets::get("gallery.css"), None);
    assert_eq!(StaticAssets::get(""), None);
    assert!(GALLERY_CSS.contains("#gallery"));
    assert!(READER_CSS.contains("article"));
    assert!(UPLOAD_JS.contains("upload-form"));
    assert!(UPLOAD_JS.contains("/upload"));
}

#[test]
fn should_detect_correct_mime_types() {
    // Given: Various file paths
    let css_path = "styles.css";
    let js_path = "script.js";
    let jpg_path = "image.jpg";
    let html_path = "page.html";

    // When: Guessing MIME types
    let css_mime = content_type_for(css_path);
    let js_mime = content_type_for(js_path);
    let jpg_mime = content_type_for(jpg_path);
    let html_mime = content_type_for(html_path);

    // Then: MIME types should be correct
    assert_eq!(css_mime, "text/css");
    assert_eq!(js_mime, "text/javascript");
    assert_eq!(jpg_mime, "image/jpeg");
    assert_eq!(html_mime, "text/html");
}

#[test]
fn unknown_files_are_octet_streams() {
    assert_eq!(content_type_for("file"), "application/octet-stream");
    assert_eq!(content_type_for("file.unknown-extension"), "application/octet-stream");
    assert_eq!(content_type_for("file."), "application/octet-stream");
    assert_eq!(content_type_for("IMAGE.JPG"), "image/jpeg");
    assert_eq!(content_type_for("css/gallery.css"), "text/css");
    assert_eq!(content_type_for("a/b.css/"), "text/css");
    assert_eq!(content_type_for("a.css/b"), "application/octet-stream");
    assert_eq!(content_type_for("dir/.css"), "application/octet-stream");
    assert_eq!(content_type_for(""), "application/octet-stream");
}

#[test]
fn an_embedded_file_is_served_for_an_hour() {
    let response = asset_response("js/upload.js", Some(b"let x;".to_vec())).unwrap();
    assert_eq!(response.content_type, "text/javascript");
    assert_eq!(response.cache_control, "public, max-age=3600");
    assert_eq!(response.body, b"let x;");
}

#[test]
fn a_file_that_is_not_embedded_is_not_found() {
    assert!(asset_response("non-existent.txt", None).is_none());
}
