//! The page that shows the library: the upload form and one card for
//! each book.

use vstd::prelude::*;
use vstd::string::StringExecFns;
use crate::book_model::{Book, BookView};
use crate::html_templates::{escape_html, escaped, footer_text, header_text, html_footer, html_header};

verus! {

/// The banner of the gallery, with the upload form.
pub open spec fn gallery_banner() -> Seq<char> {
    r#"<header>
    <h1>EZ-Books Library</h1>
    <div id="upload-section">
        <form id="upload-form" enctype="multipart/form-data">
            <input type="file" name="file" accept=".epub" required>
            <button type="submit">Upload EPUB</button>
        </form>
        <div id="upload-status"></div>
    </div>
</header>"#@
}

/// What the gallery shows while the library holds no book.
pub open spec fn empty_state() -> Seq<char> {
    r#"<div class="empty-state">
    <h2>No books yet</h2>
    <p>Upload your first EPUB to get started!</p>
</div>"#@
}

/// The author line of a card.
pub open spec fn author_line(author: Option<Seq<char>>) -> Seq<char> {
    match author {
        Some(name) => escaped(name),
        None => "Unknown Author"@,
    }
}

/// The card of one book.
pub open spec fn card_text(book: BookView) -> Seq<char> {
    let id = escaped(book.id);
    let title = escaped(book.title);
    r#"<div class="book-card" data-book-id=""#@ + id + r#"">
    <img src=""#@ + ("/covers/"@ + id) + r#"" alt=""#@ + title
        + r#"" onerror="this.style.backgroundColor='#bdc3c7'">
    <h3>"#@ + title + r#"</h3>
    <p class="author">"#@ + author_line(book.author) + r#"</p>
    <div class="actions">
        <a href=""#@ + ("/reader/"@ + id) + r#"">Read</a>
        <button class="delete" data-id=""#@ + id + r#"">Delete</button>
    </div>
</div>"#@
}

/// The cards of some books, one after the other.
pub open spec fn cards_text(books: Seq<BookView>) -> Seq<char>
    decreases books.len(),
{
    if books.len() == 0 {
        Seq::empty()
    } else {
        cards_text(books.drop_last()) + card_text(books.last())
    }
}

/// The body of the gallery: the cards of the books, or the empty state.
pub open spec fn main_text(books: Seq<BookView>) -> Seq<char> {
    r#"<main><div id="gallery">"#@ + (if books.len() == 0 {
        empty_state()
    } else {
        cards_text(books)
    }) + "</div></main>"@
}

/// The whole gallery page.
pub open spec fn gallery_text(books: Seq<BookView>) -> Seq<char> {
    header_text("EZ-Books Library"@, "gallery.css"@) + gallery_banner() + main_text(books)
        + footer_text(Some("upload.js"@))
}

/// The books of a list, each as its model.
pub open spec fn books_view(books: Seq<Book>) -> Seq<BookView> {
    books.map_values(|b: Book| b@)
}

/// The banner of the gallery, with the upload form.
pub fn render_header() -> (out: String)
    ensures
        out@ == gallery_banner(),
{
    String::from_str(
        r#"<header>
    <h1>EZ-Books Library</h1>
    <div id="upload-section">
        <form id="upload-form" enctype="multipart/form-data">
            <input type="file" name="file" accept=".epub" required>
            <button type="submit">Upload EPUB</button>
        </form>
        <div id="upload-status"></div>
    </div>
</header>"#,
    )
}

/// What the gallery shows while the library holds no book.
pub fn render_empty_state() -> (out: String)
    ensures
        out@ == empty_state(),
{
    String::from_str(
        r#"<div class="empty-state">
    <h2>No books yet</h2>
    <p>Upload your first EPUB to get started!</p>
</div>"#,
    )
}

/// The card of one book.
pub fn render_book_card(book: &Book) -> (out: String)
    ensures
        out@ == card_text(book@),
{
    let id = escape_html(book.id.as_str());
    let title = escape_html(book.title.as_str());
    let author = match &book.author {
        Some(name) => escape_html(name.as_str()),
        None => String::from_str("Unknown Author"),
    };
    let cover_url = String::from_str("/covers/").concat(id.as_str());
    let reader_url = String::from_str("/reader/").concat(id.as_str());
    let mut out = String::from_str(r#"<div class="book-card" data-book-id=""#);
    out.append(id.as_str());
    out.append(
        r#"">
    <img src=""#,
    );
    out.append(cover_url.as_str());
    out.append(r#"" alt=""#);
    out.append(title.as_str());
    out.append(
        r#"" onerror="this.style.backgroundColor='#bdc3c7'">
    <h3>"#,
    );
    out.append(title.as_str());
    out.append(
        r#"</h3>
    <p class="author">"#,
    );
    out.append(author.as_str());
    out.append(
        r#"</p>
    <div class="actions">
        <a href=""#,
    );
    out.append(reader_url.as_str());
    out.append(
        r#"">Read</a>
        <button class="delete" data-id=""#,
    );
    out.append(id.as_str());
    out.append(
        r#"">Delete</button>
    </div>
</div>"#,
    );
    out
}

/// The body of the gallery: the cards of the books, or the empty state.
pub fn render_main(books: Vec<Book>) -> (out: String)
    ensures
        out@ == main_text(books_view(books@)),
{
    let mut out = String::from_str(r#"<main><div id="gallery">"#);
    let ghost all = books_view(books@);
    if books.len() == 0 {
        let empty = render_empty_state();
        out.append(empty.as_str());
    } else {
        let ghost open = out@;
        let mut i: usize = 0;
        assert(out@ =~= open + cards_text(all.take(0)));
        while i < books.len()
            invariant
                i <= books.len(),
                all == books_view(books@),
                out@ == open + cards_text(all.take(i as int)),
            decreases books.len() - i,
        {
            proof {
                assert(all.take(i + 1).drop_last() =~= all.take(i as int));
                assert(all.take(i + 1).last() == books@[i as int]@);
            }
            let card = render_book_card(&books[i]);
            out.append(card.as_str());
            assert(out@ =~= open + cards_text(all.take(i + 1)));
            i += 1;
        }
        assert(all.take(books.len() as int) =~= all);
    }
    out.append("</div></main>");
    out
}

/// The whole gallery page for `books`.
pub fn render_gallery(books: Vec<Book>) -> (out: String)
    ensures
        out@ == gallery_text(books_view(books@)),
{
    let mut out = html_header("EZ-Books Library", "gallery.css");
    let banner = render_header();
    out.append(banner.as_str());
    let main = render_main(books);
    out.append(main.as_str());
    let footer = html_footer(Some("upload.js"));
    out.append(footer.as_str());
    out
}

} // verus!
