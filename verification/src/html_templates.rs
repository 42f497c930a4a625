//! The frame of every HTML page, and the escaping of text that is written
//! into one.

use vstd::prelude::*;
use vstd::string::StringExecFns;
use crate::text::chars_of;

verus! {

/// What stands in an HTML page for the character `c`.
pub open spec fn escape_char(c: char) -> Seq<char> {
    if c == '&' {
        "&amp;"@
    } else if c == '<' {
        "&lt;"@
    } else if c == '>' {
        "&gt;"@
    } else if c == '"' {
        "&quot;"@
    } else if c == '\'' {
        "&#x27;"@
    } else {
        seq![c]
    }
}

/// A text in which `&`, `<`, `>` and both quotes are replaced by their
/// entities.
pub open spec fn escaped(text: Seq<char>) -> Seq<char> {
    text.flat_map(|c: char| escape_char(c))
}

/// The head of a page, up to the title.
pub open spec fn header_before_title() -> Seq<char> {
    r#"<!DOCTYPE html>
<html lang="en">
<head>
    <meta charset="UTF-8">
    <meta name="viewport" content="width=device-width, initial-scale=1.0">
    <title>"#@
}

/// The head of a page, between the title and the name of the style sheet.
pub open spec fn header_before_css() -> Seq<char> {
    r#"</title>
    <link rel="stylesheet" href="/static/css/"#@
}

/// The head of a page, after the name of the style sheet.
pub open spec fn header_after_css() -> Seq<char> {
    r#"">
</head>
<body>"#@
}

/// The head of a page with the title `title` and the style sheet
/// `css_file`.
pub open spec fn header_text(title: Seq<char>, css_file: Seq<char>) -> Seq<char> {
    header_before_title() + escaped(title) + header_before_css() + css_file + header_after_css()
}

/// The element that loads the script `js_file`.
pub open spec fn script_tag(js_file: Seq<char>) -> Seq<char> {
    r#"<script src="/static/js/"#@ + js_file + r#""></script>"#@
}

/// The end of a page, after the script if there is one.
pub open spec fn footer_close() -> Seq<char> {
    r#"
</body>
</html>"#@
}

/// The end of a page that loads the script `include_js`, if any.
pub open spec fn footer_text(include_js: Option<Seq<char>>) -> Seq<char> {
    (match include_js {
        Some(js_file) => script_tag(js_file),
        None => Seq::empty(),
    }) + footer_close()
}

/// Appends the escaped form of one character.
fn push_escaped(out: &mut String, c: char)
    ensures
        final(out)@ == old(out)@ + escape_char(c),
{
    if c == '&' {
        out.append("&amp;");
    } else if c == '<' {
        out.append("&lt;");
    } else if c == '>' {
        out.append("&gt;");
    } else if c == '"' {
        out.append("&quot;");
    } else if c == '\'' {
        out.append("&#x27;");
    } else {
        out.push(c);
        assert(old(out)@.push(c) =~= old(out)@ + seq![c]);
    }
}

/// The text with `&`, `<`, `>` and both quotes replaced by their
/// entities.
pub fn escape_html(text: &str) -> (out: String)
    ensures
        out@ == escaped(text@),
{
    let chars = chars_of(text);
    let mut out = String::new();
    let mut i: usize = 0;
    let ghost escape = |c: char| escape_char(c);
    assert(chars@.take(0).flat_map(escape) =~= Seq::<char>::empty());
    while i < chars.len()
        invariant
            i <= chars.len(),
            escape == |c: char| escape_char(c),
            out@ == chars@.take(i as int).flat_map(escape),
        decreases chars.len() - i,
    {
        proof {
            chars@.take(i as int).lemma_flat_map_push(escape, chars@[i as int]);
            assert(chars@.take(i + 1) =~= chars@.take(i as int).push(chars@[i as int]));
        }
        push_escaped(&mut out, chars[i]);
        i += 1;
    }
    assert(chars@.take(chars.len() as int) =~= chars@);
    out
}

/// The head of a page with the title `title` and the style sheet
/// `css_file`.
pub fn html_header(title: &str, css_file: &str) -> (out: String)
    ensures
        out@ == header_text(title@, css_file@),
{
    let mut out = String::from_str(
        r#"<!DOCTYPE html>
<html lang="en">
<head>
    <meta charset="UTF-8">
    <meta name="viewport" content="width=device-width, initial-scale=1.0">
    <title>"#,
    );
    let title = escape_html(title);
    out.append(title.as_str());
    out.append(
        r#"</title>
    <link rel="stylesheet" href="/static/css/"#,
    );
    out.append(css_file);
    out.append(
        r#"">
</head>
<body>"#,
    );
    out
}

/// The end of a page that loads the script `include_js`, if any.
pub fn html_footer(include_js: Option<&str>) -> (out: String)
    ensures
        out@ == footer_text(
            match include_js {
                Some(js_file) => Some(js_file@),
                None => None,
            },
        ),
{
    let mut out = String::new();
    if let Some(js_file) = include_js {
        out.append(r#"<script src="/static/js/"#);
        out.append(js_file);
        out.append(r#""></script>"#);
        assert(out@ =~= script_tag(js_file@));
    }
    out.append(
        r#"
</body>
</html>"#,
    );
    out
}

} // verus!
