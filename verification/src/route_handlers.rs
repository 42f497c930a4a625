//! What the handlers of the server decide about an upload before it is
//! taken in.

use vstd::prelude::*;
use vstd::string::StringExecFns;
use crate::error::{ErrorView, EzBooksError};
use crate::text::{chars_of, ends_with, lowercase_of, same_text, to_lowercase};

verus! {

/// The name under which the form carries the uploaded file.
pub open spec fn file_field() -> Seq<char> {
    "file"@
}

/// The name given to an upload that declares none.
pub open spec fn default_filename() -> Seq<char> {
    "unknown.epub"@
}

/// The ending by which an EPUB file is known.
pub open spec fn epub_extension() -> Seq<char> {
    ".epub"@
}

/// The index of the first part at or after `from` that carries the file.
pub open spec fn file_part_from(names: Seq<Seq<char>>, from: int) -> Option<int>
    decreases names.len() - from,
{
    if from < 0 || from >= names.len() {
        None
    } else if names[from] == file_field() {
        Some(from)
    } else {
        file_part_from(names, from + 1)
    }
}

/// The index of the first part of a form that carries the file.
pub open spec fn file_part_of(names: Seq<Seq<char>>) -> Option<int> {
    file_part_from(names, 0)
}

/// Whether a name in lower case ends as an EPUB file does.
pub fn has_epub_extension(lower: &str) -> (b: bool)
    ensures
        b == epub_extension().is_suffix_of(lower@),
{
    let chars = chars_of(lower);
    let ending = chars_of(".epub");
    ends_with(&chars, &ending)
}

/// Whether a file of this name is taken for an EPUB: its name ends in
/// `.epub`, in any letter case.
pub fn is_epub_filename(filename: &str) -> (b: bool)
    ensures
        b == epub_extension().is_suffix_of(lowercase_of(filename@)),
{
    let lower = to_lowercase(filename);
    has_epub_extension(lower.as_str())
}

/// The name of an upload: the one it declares, or the default.
pub fn upload_filename(declared: Option<&str>) -> (name: String)
    ensures
        name@ == match declared {
            Some(n) => n@,
            None => default_filename(),
        },
{
    match declared {
        Some(n) => String::from_str(n),
        None => String::from_str("unknown.epub"),
    }
}

/// The index of the first part of a form that carries the file.
pub fn file_part(names: &Vec<String>) -> (index: Option<usize>)
    ensures
        match index {
            Some(i) => file_part_of(names.deep_view()) == Some(i as int),
            None => file_part_of(names.deep_view()) is None,
        },
{
    let mut i: usize = 0;
    let ghost all = names.deep_view();
    while i < names.len()
        invariant
            i <= names.len(),
            all == names.deep_view(),
            file_part_of(all) == file_part_from(all, i as int),
        decreases names.len() - i,
    {
        assert(all[i as int] == names@[i as int]@);
        if same_text(names[i].as_str(), "file") {
            return Some(i);
        }
        i += 1;
    }
    None
}

/// Whether an upload is taken in, by the name that it declares. An upload
/// whose name does not end in `.epub` is refused as of invalid format.
pub fn check_upload(declared: Option<&str>) -> (result: Result<String, EzBooksError>)
    ensures
        match result {
            Ok(name) => name@ == (match declared {
                Some(n) => n@,
                None => default_filename(),
            }) && epub_extension().is_suffix_of(lowercase_of(name@)),
            Err(error) => error@ == ErrorView::InvalidFormat && !epub_extension().is_suffix_of(
                lowercase_of(
                    match declared {
                        Some(n) => n@,
                        None => default_filename(),
                    },
                ),
            ),
        },
{
    let name = upload_filename(declared);
    if is_epub_filename(name.as_str()) {
        Ok(name)
    } else {
        Err(EzBooksError::InvalidFormat)
    }
}

} // verus!
