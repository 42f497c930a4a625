//! The metadata of an EPUB document, read from the entries of its package.

use vstd::prelude::*;
use vstd::string::StringExecFns;
use crate::error::{ErrorView, EzBooksError};
use crate::isbn::{normalize_identifiers, normalized, NormalizedIdentifiersView};
use crate::text::same_text;

verus! {

/// One entry of the metadata section of a package: a property, such as
/// `title` or `identifier`, and its value.
#[derive(Debug)]
pub struct MetadataEntry {
    pub property: String,
    pub value: String,
}

impl View for MetadataEntry {
    type V = (Seq<char>, Seq<char>);

    open spec fn view(&self) -> (Seq<char>, Seq<char>) {
        (self.property@, self.value@)
    }
}

/// The entries of a package, each as its property and its value.
pub open spec fn entries_view(entries: Seq<MetadataEntry>) -> Seq<(Seq<char>, Seq<char>)> {
    entries.map_values(|e: MetadataEntry| e@)
}

/// What a document says of itself.
#[derive(Debug)]
pub struct EpubMetadata {
    pub title: String,
    pub author: Option<String>,
    pub isbn_10: Option<String>,
    pub isbn_13: Option<String>,
    pub publisher: Option<String>,
    pub language: Option<String>,
    pub description: Option<String>,
    pub subjects: Vec<String>,
}

/// The model of the metadata of a document.
pub struct EpubMetadataView {
    pub title: Seq<char>,
    pub author: Option<Seq<char>>,
    pub isbn_10: Option<Seq<char>>,
    pub isbn_13: Option<Seq<char>>,
    pub publisher: Option<Seq<char>>,
    pub language: Option<Seq<char>>,
    pub description: Option<Seq<char>>,
    pub subjects: Seq<Seq<char>>,
}

impl View for EpubMetadata {
    type V = EpubMetadataView;

    open spec fn view(&self) -> EpubMetadataView {
        EpubMetadataView {
            title: self.title@,
            author: self.author.deep_view(),
            isbn_10: self.isbn_10.deep_view(),
            isbn_13: self.isbn_13.deep_view(),
            publisher: self.publisher.deep_view(),
            language: self.language.deep_view(),
            description: self.description.deep_view(),
            subjects: self.subjects.deep_view(),
        }
    }
}

impl EpubMetadataView {
    /// The metadata of a document that says nothing of itself.
    pub open spec fn empty() -> EpubMetadataView {
        EpubMetadataView {
            title: "Unknown"@,
            author: None,
            isbn_10: None,
            isbn_13: None,
            publisher: None,
            language: None,
            description: None,
            subjects: Seq::empty(),
        }
    }

    /// The ISBNs of the document.
    pub open spec fn identifiers(self) -> NormalizedIdentifiersView {
        NormalizedIdentifiersView { isbn_10: self.isbn_10, isbn_13: self.isbn_13 }
    }
}

impl Default for EpubMetadata {
    fn default() -> (metadata: EpubMetadata)
        ensures
            metadata@ == EpubMetadataView::empty(),
    {
        let metadata = EpubMetadata {
            title: String::from_str("Unknown"),
            author: None,
            isbn_10: None,
            isbn_13: None,
            publisher: None,
            language: None,
            description: None,
            subjects: Vec::new(),
        };
        assert(metadata@.subjects =~= Seq::empty());
        metadata
    }
}

/// The value of the first entry at or after `from` that has `property`.
pub open spec fn first_value_from(
    entries: Seq<(Seq<char>, Seq<char>)>,
    property: Seq<char>,
    from: int,
) -> Option<Seq<char>>
    decreases entries.len() - from,
{
    if from < 0 || from >= entries.len() {
        None
    } else if entries[from].0 == property {
        Some(entries[from].1)
    } else {
        first_value_from(entries, property, from + 1)
    }
}

/// The value of the first entry that has `property`.
pub open spec fn first_value(entries: Seq<(Seq<char>, Seq<char>)>, property: Seq<char>) -> Option<
    Seq<char>,
> {
    first_value_from(entries, property, 0)
}

/// The values of all entries that have `property`, in their order.
pub open spec fn values_of(entries: Seq<(Seq<char>, Seq<char>)>, property: Seq<char>) -> Seq<
    Seq<char>,
> {
    entries.filter(|e: (Seq<char>, Seq<char>)| e.0 == property).map_values(
        |e: (Seq<char>, Seq<char>)| e.1,
    )
}

/// The metadata that the entries of a package amount to.
pub open spec fn metadata_of(entries: Seq<(Seq<char>, Seq<char>)>) -> EpubMetadataView {
    let found = normalized(values_of(entries, "identifier"@));
    EpubMetadataView {
        title: match first_value(entries, "title"@) {
            Some(title) => title,
            None => "Unknown"@,
        },
        author: first_value(entries, "creator"@),
        isbn_10: found.isbn_10,
        isbn_13: found.isbn_13,
        publisher: first_value(entries, "publisher"@),
        language: first_value(entries, "language"@),
        description: first_value(entries, "description"@),
        subjects: values_of(entries, "subject"@),
    }
}

/// Filtering one more entry keeps it or drops it.
proof fn lemma_values_push(
    entries: Seq<(Seq<char>, Seq<char>)>,
    entry: (Seq<char>, Seq<char>),
    property: Seq<char>,
)
    ensures
        values_of(entries.push(entry), property) == if entry.0 == property {
            values_of(entries, property).push(entry.1)
        } else {
            values_of(entries, property)
        },
{
    let keep = |e: (Seq<char>, Seq<char>)| e.0 == property;
    reveal(Seq::filter);
    assert(entries.push(entry).drop_last() =~= entries);
    if entry.0 == property {
        assert(entries.push(entry).filter(keep) == entries.filter(keep).push(entry));
        assert(values_of(entries.push(entry), property) =~= values_of(entries, property).push(
            entry.1,
        ));
    }
}

/// The value of the first entry that has `property`.
pub fn first_entry_value(entries: &Vec<MetadataEntry>, property: &str) -> (value: Option<String>)
    ensures
        value.deep_view() == first_value(entries_view(entries@), property@),
{
    let mut i: usize = 0;
    let ghost all = entries_view(entries@);
    while i < entries.len()
        invariant
            i <= entries.len(),
            all == entries_view(entries@),
            first_value(all, property@) == first_value_from(all, property@, i as int),
        decreases entries.len() - i,
    {
        if same_text(entries[i].property.as_str(), property) {
            return Some(entries[i].value.clone());
        }
        i += 1;
    }
    None
}

/// The values of all entries that have `property`, in their order.
pub fn entry_values(entries: &Vec<MetadataEntry>, property: &str) -> (values: Vec<String>)
    ensures
        values.deep_view() == values_of(entries_view(entries@), property@),
{
    let mut values: Vec<String> = Vec::new();
    let mut i: usize = 0;
    let ghost all = entries_view(entries@);
    assert(values.deep_view() =~= values_of(all.take(0), property@)) by {
        reveal(Seq::filter);
    }
    while i < entries.len()
        invariant
            i <= entries.len(),
            all == entries_view(entries@),
            values.deep_view() == values_of(all.take(i as int), property@),
        decreases entries.len() - i,
    {
        proof {
            lemma_values_push(all.take(i as int), all[i as int], property@);
            assert(all.take(i + 1) =~= all.take(i as int).push(all[i as int]));
        }
        if same_text(entries[i].property.as_str(), property) {
            let ghost before = values.deep_view();
            values.push(entries[i].value.clone());
            assert(values.deep_view() =~= before.push(entries@[i as int].value@));
        }
        i += 1;
    }
    assert(all.take(entries.len() as int) =~= all);
    values
}

/// Sets the ISBNs of `metadata` to those found among `identifiers`: of
/// each kind the first that is found, and none where none is found.
pub fn extract_isbns(identifiers: &Vec<String>, metadata: &mut EpubMetadata)
    ensures
        final(metadata)@ == (EpubMetadataView {
            isbn_10: normalized(identifiers.deep_view()).isbn_10,
            isbn_13: normalized(identifiers.deep_view()).isbn_13,
            ..old(metadata)@
        }),
        final(metadata)@.identifiers().wf(),
{
    let found = normalize_identifiers(identifiers);
    metadata.isbn_10 = found.isbn_10;
    metadata.isbn_13 = found.isbn_13;
}

/// The metadata that the entries of a package amount to.
pub fn extract_metadata(entries: &Vec<MetadataEntry>) -> (metadata: EpubMetadata)
    ensures
        metadata@ == metadata_of(entries_view(entries@)),
        metadata@.identifiers().wf(),
{
    let mut metadata = EpubMetadata::default();
    if let Some(title) = first_entry_value(entries, "title") {
        metadata.title = title;
    }
    metadata.author = first_entry_value(entries, "creator");
    metadata.publisher = first_entry_value(entries, "publisher");
    metadata.language = first_entry_value(entries, "language");
    metadata.description = first_entry_value(entries, "description");
    metadata.subjects = entry_values(entries, "subject");
    let identifiers = entry_values(entries, "identifier");
    extract_isbns(&identifiers, &mut metadata);
    metadata
}

/// The metadata of a document, from what opening its package gave: the
/// entries of its metadata section, or the cause for which it could not
/// be opened.
pub fn parse_epub(package: Result<Vec<MetadataEntry>, String>) -> (result: Result<
    EpubMetadata,
    EzBooksError,
>)
    ensures
        match result {
            Ok(metadata) => package is Ok && metadata@ == metadata_of(
                entries_view(package->Ok_0@),
            ) && metadata@.identifiers().wf(),
            Err(error) => package is Err && error@ == ErrorView::EpubParse(
                "Failed to open EPUB: "@ + package->Err_0@,
            ),
        },
{
    match package {
        Ok(entries) => Ok(extract_metadata(&entries)),
        Err(cause) => Err(
            EzBooksError::EpubParse(String::from_str("Failed to open EPUB: ").concat(cause.as_str())),
        ),
    }
}

} // verus!
