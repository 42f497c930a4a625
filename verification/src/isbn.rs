//! Recognition of ISBN-10 and ISBN-13 among the identifiers that a
//! document declares.
//!
//! An identifier is first cleaned of hyphens and spaces. Thirteen digits
//! that begin with 978 or 979 are an ISBN-13; ten characters of which at
//! least nine are digits are an ISBN-10. What is neither, but names
//! "ISBN" in any letter case, is put in upper case, rid of that word and of
//! hyphens, spaces and colons, and taken as an ISBN-13 where thirteen
//! digits are left, as an ISBN-10 where ten characters are left of which
//! at least nine are digits. Everything else is discarded.

use vstd::prelude::*;
use crate::text::{
    all_ascii_digits, all_digits, chars_of, contains_chars, contains_seq, copy_text,
    count_ascii_digits, count_digits, lemma_without_chars, remove_all, remove_occurrences,
    starts_with, string_of, strip_chars, to_uppercase, uppercase_of, without_chars,
};

verus! {

/// What an identifier was recognized as.
#[derive(Debug)]
pub enum Classification {
    /// An ISBN-13, with its thirteen digits.
    Isbn13(String),
    /// An ISBN-10, with its ten characters.
    Isbn10(String),
    /// Not an ISBN.
    Discarded,
}

/// The model of a classification.
pub enum ClassificationView {
    Isbn13(Seq<char>),
    Isbn10(Seq<char>),
    Discarded,
}

impl View for Classification {
    type V = ClassificationView;

    open spec fn view(&self) -> ClassificationView {
        match *self {
            Classification::Isbn13(s) => ClassificationView::Isbn13(s@),
            Classification::Isbn10(s) => ClassificationView::Isbn10(s@),
            Classification::Discarded => ClassificationView::Discarded,
        }
    }
}

/// The ISBNs found among the identifiers of one document.
#[derive(Debug)]
pub struct NormalizedIdentifiers {
    pub isbn_10: Option<String>,
    pub isbn_13: Option<String>,
}

/// The model of the ISBNs of a document.
pub struct NormalizedIdentifiersView {
    pub isbn_10: Option<Seq<char>>,
    pub isbn_13: Option<Seq<char>>,
}

impl View for NormalizedIdentifiers {
    type V = NormalizedIdentifiersView;

    open spec fn view(&self) -> NormalizedIdentifiersView {
        NormalizedIdentifiersView {
            isbn_10: self.isbn_10.deep_view(),
            isbn_13: self.isbn_13.deep_view(),
        }
    }
}

impl NormalizedIdentifiersView {
    /// An ISBN-13 that is present is thirteen digits; an ISBN-10 that is
    /// present has ten characters, at least nine of them digits, and
    /// neither hyphen nor space among them.
    pub open spec fn wf(self) -> bool {
        &&& self.isbn_13 matches Some(s) ==> s.len() == 13 && all_ascii_digits(s)
        &&& self.isbn_10 matches Some(s) ==> is_isbn10_text(s) && !s.contains('-') && !s.contains(
            ' ',
        )
    }

    /// The identifier to look a book up by: the ISBN-13 where there is
    /// one, else the ISBN-10.
    pub open spec fn preferred(self) -> Option<Seq<char>> {
        if self.isbn_13 is Some {
            self.isbn_13
        } else {
            self.isbn_10
        }
    }

    /// These identifiers, completed by one more classified identifier: it
    /// fills its kind where that is still empty.
    pub open spec fn with(self, found: ClassificationView) -> NormalizedIdentifiersView {
        match found {
            ClassificationView::Isbn13(s) => if self.isbn_13 is None {
                NormalizedIdentifiersView { isbn_13: Some(s), ..self }
            } else {
                self
            },
            ClassificationView::Isbn10(s) => if self.isbn_10 is None {
                NormalizedIdentifiersView { isbn_10: Some(s), ..self }
            } else {
                self
            },
            ClassificationView::Discarded => self,
        }
    }
}

/// The characters that cleaning removes.
pub open spec fn separators() -> Seq<char> {
    seq!['-', ' ']
}

/// The characters removed from an identifier that names "ISBN".
pub open spec fn prefix_separators() -> Seq<char> {
    seq!['-', ' ', ':']
}

/// The word that marks an identifier as an ISBN.
pub open spec fn isbn_word() -> Seq<char> {
    "ISBN"@
}

/// An identifier without its hyphens and spaces.
pub open spec fn cleaned(raw: Seq<char>) -> Seq<char> {
    without_chars(raw, separators())
}

/// Thirteen digits that begin with 978 or 979.
pub open spec fn is_isbn13_text(s: Seq<char>) -> bool {
    &&& s.len() == 13
    &&& all_ascii_digits(s)
    &&& ("978"@.is_prefix_of(s) || "979"@.is_prefix_of(s))
}

/// Ten characters of which at least nine are digits.
pub open spec fn is_isbn10_text(s: Seq<char>) -> bool {
    s.len() == 10 && count_ascii_digits(s) >= 9
}

/// What is left of an upper-case identifier without the word "ISBN" and
/// without hyphens, spaces and colons.
pub open spec fn prefixed_part(upper: Seq<char>) -> Seq<char> {
    without_chars(remove_all(upper, isbn_word()), prefix_separators())
}

/// How an identifier in upper case is classified by the word "ISBN".
pub open spec fn classify_prefixed(upper: Seq<char>) -> ClassificationView {
    let part = prefixed_part(upper);
    if !contains_seq(upper, isbn_word()) {
        ClassificationView::Discarded
    } else if part.len() == 13 && all_ascii_digits(part) {
        ClassificationView::Isbn13(part)
    } else if is_isbn10_text(part) {
        ClassificationView::Isbn10(part)
    } else {
        ClassificationView::Discarded
    }
}

/// How an identifier is classified.
pub open spec fn classify(raw: Seq<char>) -> ClassificationView {
    if is_isbn13_text(cleaned(raw)) {
        ClassificationView::Isbn13(cleaned(raw))
    } else if is_isbn10_text(cleaned(raw)) {
        ClassificationView::Isbn10(cleaned(raw))
    } else {
        classify_prefixed(uppercase_of(raw))
    }
}

/// The ISBNs among `identifiers`: of each kind the first that is found.
pub open spec fn normalized(identifiers: Seq<Seq<char>>) -> NormalizedIdentifiersView
    decreases identifiers.len(),
{
    if identifiers.len() == 0 {
        NormalizedIdentifiersView { isbn_10: None, isbn_13: None }
    } else {
        normalized(identifiers.drop_last()).with(classify(identifiers.last()))
    }
}

/// Thirteen digits that begin with 978 or 979 are an ISBN-13, ten
/// characters with nine digits among them an ISBN-10, whatever hyphens and
/// spaces stood between them; an identifier that is neither and does not
/// name "ISBN" is discarded.
pub proof fn lemma_classify(raw: Seq<char>)
    ensures
        is_isbn13_text(cleaned(raw)) ==> classify(raw) == ClassificationView::Isbn13(cleaned(raw)),
        is_isbn10_text(cleaned(raw)) ==> classify(raw) == ClassificationView::Isbn10(cleaned(raw)),
        !is_isbn13_text(cleaned(raw)) && !is_isbn10_text(cleaned(raw)) && !contains_seq(
            uppercase_of(raw),
            isbn_word(),
        ) ==> classify(raw) == ClassificationView::Discarded,
{
}

/// Whatever is classified as an ISBN-13 is thirteen digits, and whatever
/// is classified as an ISBN-10 has ten characters, at least nine of them
/// digits, and neither hyphen nor space among them.
pub proof fn lemma_classified_shape(raw: Seq<char>)
    ensures
        classify(raw) matches ClassificationView::Isbn13(s) ==> s.len() == 13 && all_ascii_digits(
            s,
        ),
        classify(raw) matches ClassificationView::Isbn10(s) ==> is_isbn10_text(s) && !s.contains(
            '-',
        ) && !s.contains(' '),
{
    assert(separators().contains('-')) by {
        assert(separators()[0] == '-');
    }
    assert(separators().contains(' ')) by {
        assert(separators()[1] == ' ');
    }
    assert(prefix_separators().contains('-')) by {
        assert(prefix_separators()[0] == '-');
    }
    assert(prefix_separators().contains(' ')) by {
        assert(prefix_separators()[1] == ' ');
    }
    lemma_without_chars(raw, separators(), '-');
    lemma_without_chars(raw, separators(), ' ');
    let rest = remove_all(uppercase_of(raw), isbn_word());
    lemma_without_chars(rest, prefix_separators(), '-');
    lemma_without_chars(rest, prefix_separators(), ' ');
}

/// The identifiers found in a list are well formed.
pub proof fn lemma_normalized_wf(identifiers: Seq<Seq<char>>)
    ensures
        normalized(identifiers).wf(),
    decreases identifiers.len(),
{
    if identifiers.len() > 0 {
        lemma_normalized_wf(identifiers.drop_last());
        lemma_classified_shape(identifiers.last());
    }
}

/// The ISBN-13 of a list is that of its first identifier that is
/// classified as one, and its ISBN-10 likewise: later ones do not
/// replace it.
pub proof fn lemma_normalized_first(identifiers: Seq<Seq<char>>, i: int)
    requires
        0 <= i < identifiers.len(),
    ensures
        (classify(identifiers[i]) matches ClassificationView::Isbn13(s) && forall|j: int|
            0 <= j < i ==> !(classify(#[trigger] identifiers[j]) is Isbn13)) ==> normalized(
            identifiers,
        ).isbn_13 == Some(classify(identifiers[i])->Isbn13_0),
        (classify(identifiers[i]) matches ClassificationView::Isbn10(s) && forall|j: int|
            0 <= j < i ==> !(classify(#[trigger] identifiers[j]) is Isbn10)) ==> normalized(
            identifiers,
        ).isbn_10 == Some(classify(identifiers[i])->Isbn10_0),
    decreases identifiers.len(),
{
    let front = identifiers.drop_last();
    if i < identifiers.len() - 1 {
        lemma_normalized_first(front, i);
        assert(front[i] == identifiers[i]);
        assert(forall|j: int| 0 <= j < i ==> front[j] == identifiers[j]);
    } else {
        lemma_normalized_without(front);
        assert(forall|j: int| 0 <= j < i ==> front[j] == identifiers[j]);
    }
}

/// A kind that no identifier of a list is classified as is not found in
/// it.
proof fn lemma_normalized_without(identifiers: Seq<Seq<char>>)
    ensures
        (forall|j: int|
            0 <= j < identifiers.len() ==> !(classify(#[trigger] identifiers[j]) is Isbn13))
            ==> normalized(identifiers).isbn_13 is None,
        (forall|j: int|
            0 <= j < identifiers.len() ==> !(classify(#[trigger] identifiers[j]) is Isbn10))
            ==> normalized(identifiers).isbn_10 is None,
    decreases identifiers.len(),
{
    if identifiers.len() > 0 {
        let front = identifiers.drop_last();
        lemma_normalized_without(front);
        assert(forall|j: int| 0 <= j < front.len() ==> front[j] == identifiers[j]);
        assert(identifiers.last() == identifiers[identifiers.len() - 1]);
    }
}

/// No identifier is an ISBN where none is classified as one, and then
/// nothing is found.
pub proof fn lemma_normalized_none(identifiers: Seq<Seq<char>>)
    requires
        forall|i: int|
            0 <= i < identifiers.len() ==> classify(#[trigger] identifiers[i])
                == ClassificationView::Discarded,
    ensures
        normalized(identifiers) == (NormalizedIdentifiersView { isbn_10: None, isbn_13: None }),
    decreases identifiers.len(),
{
    if identifiers.len() > 0 {
        lemma_normalized_none(identifiers.drop_last());
    }
}

/// A copy of `raw` without hyphens and spaces.
pub fn clean_identifier(raw: &str) -> (out: String)
    ensures
        out@ == cleaned(raw@),
{
    let chars = chars_of(raw);
    let mut dropped: Vec<char> = Vec::new();
    dropped.push('-');
    dropped.push(' ');
    assert(dropped@ =~= separators());
    let kept = strip_chars(&chars, &dropped);
    string_of(&kept)
}

/// What is left of an upper-case identifier without the word "ISBN" and
/// without hyphens, spaces and colons.
pub fn strip_isbn_prefix(upper: &str) -> (out: String)
    ensures
        out@ == prefixed_part(upper@),
{
    let chars = chars_of(upper);
    let word = chars_of("ISBN");
    let mut dropped: Vec<char> = Vec::new();
    dropped.push('-');
    dropped.push(' ');
    dropped.push(':');
    assert(dropped@ =~= prefix_separators());
    let rest = remove_occurrences(&chars, &word);
    let kept = strip_chars(&rest, &dropped);
    string_of(&kept)
}

/// Classifies an identifier in upper case by the word "ISBN".
pub fn classify_prefixed_identifier(upper: &str) -> (c: Classification)
    ensures
        c@ == classify_prefixed(upper@),
{
    let chars = chars_of(upper);
    let word = chars_of("ISBN");
    if !contains_chars(&chars, &word) {
        return Classification::Discarded;
    }
    let part = strip_isbn_prefix(upper);
    let part_chars = chars_of(part.as_str());
    if part_chars.len() == 13 && all_digits(&part_chars) {
        Classification::Isbn13(part)
    } else if part_chars.len() == 10 && count_digits(&part_chars) >= 9 {
        Classification::Isbn10(part)
    } else {
        Classification::Discarded
    }
}

/// Classifies an identifier.
pub fn classify_identifier(raw: &str) -> (c: Classification)
    ensures
        c@ == classify(raw@),
{
    let cleaned_text = clean_identifier(raw);
    let chars = chars_of(cleaned_text.as_str());
    let p978 = chars_of("978");
    let p979 = chars_of("979");
    if chars.len() == 13 && all_digits(&chars) && (starts_with(&chars, &p978) || starts_with(
        &chars,
        &p979,
    )) {
        return Classification::Isbn13(cleaned_text);
    }
    if chars.len() == 10 && count_digits(&chars) >= 9 {
        return Classification::Isbn10(cleaned_text);
    }
    let upper = to_uppercase(raw);
    classify_prefixed_identifier(upper.as_str())
}

/// The ISBNs among `identifiers`: of each kind the first that is found.
pub fn normalize_identifiers(identifiers: &Vec<String>) -> (found: NormalizedIdentifiers)
    ensures
        found@ == normalized(identifiers.deep_view()),
        found@.wf(),
{
    let mut found = NormalizedIdentifiers { isbn_10: None, isbn_13: None };
    let mut i: usize = 0;
    let ghost ids = identifiers.deep_view();
    while i < identifiers.len()
        invariant
            i <= identifiers.len(),
            ids == identifiers.deep_view(),
            found@ == normalized(ids.take(i as int)),
        decreases identifiers.len() - i,
    {
        assert(ids.take(i + 1).drop_last() =~= ids.take(i as int));
        assert(ids.take(i + 1).last() == identifiers@[i as int]@);
        match classify_identifier(identifiers[i].as_str()) {
            Classification::Isbn13(s) => {
                if found.isbn_13.is_none() {
                    found.isbn_13 = Some(s);
                }
            },
            Classification::Isbn10(s) => {
                if found.isbn_10.is_none() {
                    found.isbn_10 = Some(s);
                }
            },
            Classification::Discarded => {},
        }
        i += 1;
    }
    proof {
        assert(ids.take(identifiers.len() as int) =~= ids);
        lemma_normalized_wf(ids);
    }
    found
}

impl NormalizedIdentifiers {
    /// The identifier to look a book up by: the ISBN-13 where there is
    /// one, else the ISBN-10.
    pub fn preferred(&self) -> (key: Option<String>)
        ensures
            key.deep_view() == self@.preferred(),
    {
        if self.isbn_13.is_some() {
            copy_text(&self.isbn_13)
        } else {
            copy_text(&self.isbn_10)
        }
    }
}

} // verus!
