//! The answer to a request for a file of the user interface.

use vstd::prelude::*;
use vstd::string::StringExecFns;
use crate::text::same_text;

verus! {

/// The style sheet of the gallery.
pub const GALLERY_CSS: &'static str =
    "body { font-family: sans-serif; margin: 0; background: #ecf0f1; color: #2c3e50; }
header { padding: 1rem 2rem; background: #2c3e50; color: #ecf0f1; }
#gallery { display: flex; flex-wrap: wrap; gap: 1rem; padding: 2rem; }
.book-card { width: 300px; background: #fff; padding: 1rem; border-radius: 4px; }
.book-card img { width: 100%; min-height: 150px; }
.empty-state { margin: 4rem auto; text-align: center; }
";

/// The style sheet of the reader.
pub const READER_CSS: &'static str =
    "body { font-family: serif; margin: 0; background: #fdf6e3; color: #2c3e50; }
nav { padding: 1rem 2rem; background: #2c3e50; color: #ecf0f1; }
nav a { color: #ecf0f1; }
article { max-width: 40rem; margin: 2rem auto; line-height: 1.6; }
";

/// The script of the gallery: it sends the upload form and the requests
/// to delete a book.
pub const UPLOAD_JS: &'static str =
    "document.getElementById('upload-form').addEventListener('submit', async (event) => {
  event.preventDefault();
  const status = document.getElementById('upload-status');
  status.textContent = 'Uploading...';
  const response = await fetch('/upload', { method: 'POST', body: new FormData(event.target) });
  status.textContent = response.ok ? 'Uploaded' : 'Upload failed';
  if (response.ok) { window.location.reload(); }
});
document.querySelectorAll('button.delete').forEach((button) => {
  button.addEventListener('click', async () => {
    const response = await fetch('/api/books/' + button.dataset.id, { method: 'DELETE' });
    if (response.ok) { window.location.reload(); }
  });
});
";

/// The files of the user interface, which are part of the library.
pub struct StaticAssets;

impl StaticAssets {
    /// The text of the file at `path`, if there is one.
    pub open spec fn text_at(path: Seq<char>) -> Option<Seq<char>> {
        if path == "css/gallery.css"@ {
            Some(GALLERY_CSS@)
        } else if path == "css/reader.css"@ {
            Some(READER_CSS@)
        } else if path == "js/upload.js"@ {
            Some(UPLOAD_JS@)
        } else {
            None
        }
    }

    /// The file at `path`, if there is one.
    pub fn get(path: &str) -> (file: Option<&'static str>)
        ensures
            match file {
                Some(text) => Self::text_at(path@) == Some(text@),
                None => Self::text_at(path@) is None,
            },
    {
        if same_text(path, "css/gallery.css") {
            Some(GALLERY_CSS)
        } else if same_text(path, "css/reader.css") {
            Some(READER_CSS)
        } else if same_text(path, "js/upload.js") {
            Some(UPLOAD_JS)
        } else {
            None
        }
    }
}

/// How long a browser may keep a file of the user interface.
pub open spec fn cache_policy() -> Seq<char> {
    "public, max-age=3600"@
}

/// The media type that `mime_guess` holds to be the first for the
/// extension of a path, and `application/octet-stream` where the path has
/// no extension or it knows none for it.
pub uninterp spec fn guessed_media_type(path: Seq<char>) -> Seq<char>;

/// Calls `mime_guess::from_path`, which takes the extension of the path
/// and looks it up without regard to letter case and without reading the
/// disk, and `MimeGuess::first_or_octet_stream` on the guess. The
/// contract only names the result.
#[verifier::external_body]
fn guess_media_type(path: &str) -> (media_type: String)
    ensures
        media_type@ == guessed_media_type(path@),
{
    mime_guess::from_path(path).first_or_octet_stream().as_ref().to_string()
}

/// The answer to a request for a file of the user interface.
#[derive(Debug)]
pub struct AssetResponse {
    pub content_type: String,
    pub cache_control: String,
    pub body: Vec<u8>,
}

/// The answer to the request for the file at `path`, from the file that
/// is embedded under that path: its bytes under its media type, to be
/// kept for an hour, or nothing where no such file is embedded.
pub fn asset_response(path: &str, asset: Option<Vec<u8>>) -> (response: Option<AssetResponse>)
    ensures
        match asset {
            Some(bytes) => response matches Some(r) && r.content_type@ == guessed_media_type(path@)
                && r.cache_control@ == cache_policy() && r.body@ == bytes@,
            None => response is None,
        },
{
    match asset {
        Some(bytes) => Some(
            AssetResponse {
                content_type: guess_media_type(path),
                cache_control: String::from_str("public, max-age=3600"),
                body: bytes,
            },
        ),
        None => None,
    }
}

} // verus!
