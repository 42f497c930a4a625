//! The page on which a book is read: its chapters, sanitized, one after
//! the other.

use vstd::prelude::*;
use vstd::string::StringExecFns;
use crate::book_model::{Book, BookView};
use crate::error::{ErrorView, EzBooksError};
use crate::html_templates::{escape_html, escaped, footer_text, header_text, html_footer, html_header};

verus! {

/// The navigation bar over a book with the title `title`.
pub open spec fn nav_text(title: Seq<char>) -> Seq<char> {
    r#"<nav>
    <a href="/">&larr; Back to Library</a>
    <h2>"#@ + escaped(title) + r#"</h2>
</nav>"#@
}

/// The article that holds the content of a book.
pub open spec fn article_text(content: Seq<char>) -> Seq<char> {
    r#"<main>
    <article>
"#@ + content + r#"
    </article>
</main>"#@
}

/// The whole page on which `book` is read, around its content.
pub open spec fn reader_text(book: BookView, content: Seq<char>) -> Seq<char> {
    header_text(book.title, "reader.css"@) + nav_text(book.title) + article_text(content)
        + footer_text(None)
}

/// The markup that `ammonia::clean` leaves of `html`.
pub uninterp spec fn sanitized(html: Seq<char>) -> Seq<char>;

/// The rule that closes each chapter.
pub open spec fn chapter_rule() -> Seq<char> {
    "\n<hr>\n"@
}

/// The chapters of a book, one after the other, each that can be read
/// closed by a rule.
pub open spec fn joined(chapters: Seq<Option<Seq<char>>>) -> Seq<char>
    decreases chapters.len(),
{
    if chapters.len() == 0 {
        Seq::empty()
    } else {
        joined(chapters.drop_last()) + match chapters.last() {
            Some(chapter) => chapter + chapter_rule(),
            None => Seq::empty(),
        }
    }
}

/// A chapter after sanitizing, where it can be read.
pub open spec fn sanitized_chapter(chapter: Option<Seq<char>>) -> Option<Seq<char>> {
    match chapter {
        Some(text) => Some(sanitized(text)),
        None => None,
    }
}

/// The content of a book, from the chapters of its spine: each chapter
/// that can be read, sanitized and closed by a rule.
pub open spec fn content_of(chapters: Seq<Option<Seq<char>>>) -> Seq<char> {
    joined(chapters.map_values(|c: Option<Seq<char>>| sanitized_chapter(c)))
}

/// Calls `ammonia::clean`, which parses the markup and writes it again
/// with its default rules: only harmless tags and attributes are kept. The
/// contract only names the result.
#[verifier::external_body]
fn sanitize_html(html: &str) -> (clean: String)
    ensures
        clean@ == sanitized(html@),
{
    ammonia::clean(html)
}

/// The navigation bar over a book with the title `title`.
pub fn render_nav(title: &str) -> (out: String)
    ensures
        out@ == nav_text(title@),
{
    let mut out = String::from_str(
        r#"<nav>
    <a href="/">&larr; Back to Library</a>
    <h2>"#,
    );
    let title = escape_html(title);
    out.append(title.as_str());
    out.append(
        r#"</h2>
</nav>"#,
    );
    out
}

/// The article that holds the content of a book.
pub fn render_content(content: &str) -> (out: String)
    ensures
        out@ == article_text(content@),
{
    let mut out = String::from_str(
        r#"<main>
    <article>
"#,
    );
    out.append(content);
    out.append(
        r#"
    </article>
</main>"#,
    );
    out
}

/// The whole page on which `book` is read. `epub_content` is written as
/// it is: it has to be sanitized already.
pub fn render_reader(book: &Book, epub_content: String) -> (out: String)
    ensures
        out@ == reader_text(book@, epub_content@),
{
    let mut out = html_header(book.title.as_str(), "reader.css");
    let nav = render_nav(book.title.as_str());
    out.append(nav.as_str());
    let article = render_content(epub_content.as_str());
    out.append(article.as_str());
    let footer = html_footer(None);
    out.append(footer.as_str());
    out
}

/// The chapters of a list, each as its characters.
pub open spec fn chapters_view(chapters: Seq<Option<String>>) -> Seq<Option<Seq<char>>> {
    chapters.map_values(|c: Option<String>| c.deep_view())
}

/// The chapters of a book, one after the other, each that can be read
/// closed by a rule.
pub fn join_chapters(chapters: &Vec<Option<String>>) -> (out: String)
    ensures
        out@ == joined(chapters_view(chapters@)),
{
    let mut out = String::new();
    let mut i: usize = 0;
    let ghost all = chapters_view(chapters@);
    assert(out@ =~= joined(all.take(0)));
    while i < chapters.len()
        invariant
            i <= chapters.len(),
            all == chapters_view(chapters@),
            out@ == joined(all.take(i as int)),
        decreases chapters.len() - i,
    {
        proof {
            assert(all.take(i + 1).drop_last() =~= all.take(i as int));
            assert(all.take(i + 1).last() == chapters@[i as int].deep_view());
        }
        let ghost before = out@;
        match &chapters[i] {
            Some(chapter) => {
                out.append(chapter.as_str());
                out.append("\n<hr>\n");
                assert(out@ =~= before + (chapter@ + chapter_rule()));
            },
            None => {
                assert(out@ =~= before + Seq::<char>::empty());
            },
        }
        i += 1;
    }
    assert(all.take(chapters.len() as int) =~= all);
    out
}

/// The chapters of a book, each sanitized where it can be read.
pub fn sanitize_each(chapters: &Vec<Option<String>>) -> (clean: Vec<Option<String>>)
    ensures
        chapters_view(clean@) == chapters_view(chapters@).map_values(
            |c: Option<Seq<char>>| sanitized_chapter(c),
        ),
{
    let mut clean: Vec<Option<String>> = Vec::new();
    let mut i: usize = 0;
    let ghost all = chapters_view(chapters@);
    let ghost each = |c: Option<Seq<char>>| sanitized_chapter(c);
    while i < chapters.len()
        invariant
            i <= chapters.len(),
            all == chapters_view(chapters@),
            each == |c: Option<Seq<char>>| sanitized_chapter(c),
            clean@.len() == i,
            forall|j: int| 0 <= j < i ==> (#[trigger] clean@[j]).deep_view() == sanitized_chapter(all[j]),
        decreases chapters.len() - i,
    {
        assert(all[i as int] == chapters@[i as int].deep_view());
        let one = match &chapters[i] {
            Some(chapter) => Some(sanitize_html(chapter.as_str())),
            None => None,
        };
        clean.push(one);
        i += 1;
    }
    assert(chapters_view(clean@) =~= all.map_values(each));
    clean
}

/// The content of a book, sanitized, from the chapters of its spine.
pub fn sanitize_chapters(chapters: &Vec<Option<String>>) -> (out: String)
    ensures
        out@ == content_of(chapters_view(chapters@)),
{
    let clean = sanitize_each(chapters);
    join_chapters(&clean)
}

/// The content of a book, sanitized, from what opening its package gave:
/// the chapters of its spine, each with its text where it can be read, or
/// the cause for which the document could not be opened.
pub fn extract_and_sanitize_content(package: Result<Vec<Option<String>>, String>) -> (result:
    Result<String, EzBooksError>)
    ensures
        match package {
            Ok(chapters) => result matches Ok(content) && content@ == content_of(
                chapters_view(chapters@),
            ),
            Err(cause) => result matches Err(error) && error@ == ErrorView::EpubParse(
                "Failed to open EPUB: "@ + cause@,
            ),
        },
{
    match package {
        Ok(chapters) => Ok(sanitize_chapters(&chapters)),
        Err(cause) => Err(
            EzBooksError::EpubParse(String::from_str("Failed to open EPUB: ").concat(cause.as_str())),
        ),
    }
}

} // verus!
