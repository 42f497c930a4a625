//! What the OpenLibrary Books API answers to a lookup.

use vstd::prelude::*;
use crate::text::same_text;

verus! {

/// One author of a work.
#[derive(Debug, Clone)]
pub struct Author {
    pub name: String,
    pub url: Option<String>,
}

/// The model of an author.
pub struct AuthorView {
    pub name: Seq<char>,
    pub url: Option<Seq<char>>,
}

impl View for Author {
    type V = AuthorView;

    open spec fn view(&self) -> AuthorView {
        AuthorView { name: self.name@, url: self.url.deep_view() }
    }
}

/// One publisher of an edition.
#[derive(Debug, Clone)]
pub struct Publisher {
    pub name: String,
}

/// The model of a publisher.
pub struct PublisherView {
    pub name: Seq<char>,
}

impl View for Publisher {
    type V = PublisherView;

    open spec fn view(&self) -> PublisherView {
        PublisherView { name: self.name@ }
    }
}

/// The identifiers under which an edition is known.
#[derive(Debug, Clone)]
pub struct Identifiers {
    pub isbn_10: Option<Vec<String>>,
    pub isbn_13: Option<Vec<String>>,
    pub openlibrary: Option<Vec<String>>,
    pub goodreads: Option<Vec<String>>,
}

/// The model of the identifiers of an edition.
pub struct IdentifiersView {
    pub isbn_10: Option<Seq<Seq<char>>>,
    pub isbn_13: Option<Seq<Seq<char>>>,
    pub openlibrary: Option<Seq<Seq<char>>>,
    pub goodreads: Option<Seq<Seq<char>>>,
}

impl View for Identifiers {
    type V = IdentifiersView;

    open spec fn view(&self) -> IdentifiersView {
        IdentifiersView {
            isbn_10: self.isbn_10.deep_view(),
            isbn_13: self.isbn_13.deep_view(),
            openlibrary: self.openlibrary.deep_view(),
            goodreads: self.goodreads.deep_view(),
        }
    }
}

/// One subject of a work.
#[derive(Debug, Clone)]
pub struct Subject {
    pub name: String,
    pub url: Option<String>,
}

/// The model of a subject.
pub struct SubjectView {
    pub name: Seq<char>,
    pub url: Option<Seq<char>>,
}

impl View for Subject {
    type V = SubjectView;

    open spec fn view(&self) -> SubjectView {
        SubjectView { name: self.name@, url: self.url.deep_view() }
    }
}

/// Where the cover images of an edition are found, by size.
#[derive(Debug, Clone)]
pub struct Cover {
    pub small: Option<String>,
    pub medium: Option<String>,
    pub large: Option<String>,
}

/// The model of the cover images of an edition.
pub struct CoverView {
    pub small: Option<Seq<char>>,
    pub medium: Option<Seq<char>>,
    pub large: Option<Seq<char>>,
}

impl View for Cover {
    type V = CoverView;

    open spec fn view(&self) -> CoverView {
        CoverView {
            small: self.small.deep_view(),
            medium: self.medium.deep_view(),
            large: self.large.deep_view(),
        }
    }
}

/// What OpenLibrary knows of one edition.
#[derive(Debug, Clone)]
pub struct BookData {
    pub title: Option<String>,
    pub subtitle: Option<String>,
    pub authors: Vec<Author>,
    pub publishers: Vec<Publisher>,
    pub publish_date: Option<String>,
    pub number_of_pages: Option<i32>,
    pub identifiers: Option<Identifiers>,
    pub subjects: Vec<Subject>,
    pub cover: Option<Cover>,
    pub url: Option<String>,
    pub key: Option<String>,
}

/// The model of an edition.
pub struct BookDataView {
    pub title: Option<Seq<char>>,
    pub subtitle: Option<Seq<char>>,
    pub authors: Seq<AuthorView>,
    pub publishers: Seq<PublisherView>,
    pub publish_date: Option<Seq<char>>,
    pub number_of_pages: Option<i32>,
    pub identifiers: Option<IdentifiersView>,
    pub subjects: Seq<SubjectView>,
    pub cover: Option<CoverView>,
    pub url: Option<Seq<char>>,
    pub key: Option<Seq<char>>,
}

impl View for BookData {
    type V = BookDataView;

    open spec fn view(&self) -> BookDataView {
        BookDataView {
            title: self.title.deep_view(),
            subtitle: self.subtitle.deep_view(),
            authors: self.authors@.map_values(|a: Author| a@),
            publishers: self.publishers@.map_values(|p: Publisher| p@),
            publish_date: self.publish_date.deep_view(),
            number_of_pages: self.number_of_pages,
            identifiers: match self.identifiers {
                Some(ids) => Some(ids@),
                None => None,
            },
            subjects: self.subjects@.map_values(|s: Subject| s@),
            cover: match self.cover {
                Some(cover) => Some(cover@),
                None => None,
            },
            url: self.url.deep_view(),
            key: self.key.deep_view(),
        }
    }
}

impl BookData {
    /// An edition of which nothing is known.
    pub fn empty() -> (data: BookData)
        ensures
            data@ == (BookDataView {
                title: None,
                subtitle: None,
                authors: Seq::empty(),
                publishers: Seq::empty(),
                publish_date: None,
                number_of_pages: None,
                identifiers: None,
                subjects: Seq::empty(),
                cover: None,
                url: None,
                key: None,
            }),
    {
        let data = BookData {
            title: None,
            subtitle: None,
            authors: Vec::new(),
            publishers: Vec::new(),
            publish_date: None,
            number_of_pages: None,
            identifiers: None,
            subjects: Vec::new(),
            cover: None,
            url: None,
            key: None,
        };
        assert(data@.authors =~= Seq::empty());
        assert(data@.publishers =~= Seq::empty());
        assert(data@.subjects =~= Seq::empty());
        data
    }
}

/// The answer to a lookup: the editions found, each under the key that it
/// was asked by, in the order in which they were entered. No key occurs
/// twice in an answer that is well formed.
#[derive(Debug, Clone)]
pub struct BooksApiResponse {
    pub books: Vec<(String, BookData)>,
}

impl View for BooksApiResponse {
    type V = Seq<(Seq<char>, BookDataView)>;

    open spec fn view(&self) -> Seq<(Seq<char>, BookDataView)> {
        self.books@.map_values(|e: (String, BookData)| (e.0@, e.1@))
    }
}

/// No key occurs twice among the entries.
pub open spec fn distinct_keys(entries: Seq<(Seq<char>, BookDataView)>) -> bool {
    forall|i: int, j: int|
        0 <= i < j < entries.len() ==> (#[trigger] entries[i]).0 != (#[trigger] entries[j]).0
}

/// The index of the first entry under `key` at or after `from`.
pub open spec fn position_from(
    entries: Seq<(Seq<char>, BookDataView)>,
    key: Seq<char>,
    from: int,
) -> Option<int>
    decreases entries.len() - from,
{
    if from < 0 || from >= entries.len() {
        None
    } else if entries[from].0 == key {
        Some(from)
    } else {
        position_from(entries, key, from + 1)
    }
}

/// The index of the first entry under `key`, if there is one.
pub open spec fn position_of(entries: Seq<(Seq<char>, BookDataView)>, key: Seq<char>) -> Option<
    int,
> {
    position_from(entries, key, 0)
}

/// `position_from` gives the first entry under the key from `from` on, and
/// none where no entry from there on has it.
pub proof fn lemma_position_from(entries: Seq<(Seq<char>, BookDataView)>, key: Seq<char>, from: int)
    requires
        0 <= from,
    ensures
        match position_from(entries, key, from) {
            Some(i) => from <= i < entries.len() && entries[i].0 == key && forall|j: int|
                from <= j < i ==> (#[trigger] entries[j]).0 != key,
            None => forall|j: int| from <= j < entries.len() ==> (#[trigger] entries[j]).0 != key,
        },
    decreases entries.len() - from,
{
    if from < entries.len() && entries[from].0 != key {
        lemma_position_from(entries, key, from + 1);
    }
}

impl BooksApiResponse {
    /// Well formed: no key occurs twice.
    pub open spec fn wf(&self) -> bool {
        distinct_keys(self@)
    }

    /// An answer without editions.
    pub fn new() -> (response: BooksApiResponse)
        ensures
            response@ == Seq::<(Seq<char>, BookDataView)>::empty(),
            response.wf(),
    {
        let response = BooksApiResponse { books: Vec::new() };
        assert(response@ =~= Seq::empty());
        response
    }

    /// How many editions the answer holds.
    pub fn len(&self) -> (n: usize)
        ensures
            n == self@.len(),
    {
        self.books.len()
    }

    /// Whether the answer holds no edition.
    pub fn is_empty(&self) -> (b: bool)
        ensures
            b == (self@.len() == 0),
    {
        self.books.len() == 0
    }

    /// The index of the edition under `key`.
    pub fn position(&self, key: &str) -> (r: Option<usize>)
        ensures
            match r {
                Some(i) => position_of(self@, key@) == Some(i as int),
                None => position_of(self@, key@) is None,
            },
    {
        let mut i: usize = 0;
        while i < self.books.len()
            invariant
                i <= self.books.len(),
                position_of(self@, key@) == position_from(self@, key@, i as int),
            decreases self.books.len() - i,
        {
            if same_text(self.books[i].0.as_str(), key) {
                return Some(i);
            }
            i += 1;
        }
        None
    }

    /// The edition under `key`.
    pub fn get(&self, key: &str) -> (r: Option<&BookData>)
        ensures
            match r {
                Some(data) => position_of(self@, key@) is Some && data@ == self@[position_of(
                    self@,
                    key@,
                ).unwrap()].1,
                None => position_of(self@, key@) is None,
            },
    {
        proof {
            lemma_position_from(self@, key@, 0);
        }
        match self.position(key) {
            Some(i) => Some(&self.books[i].1),
            None => None,
        }
    }

    /// Enters an edition under `key`. An edition that stood under the key
    /// is replaced, in its place; a new key is entered last.
    pub fn insert(&mut self, key: String, data: BookData)
        ensures
            final(self)@ == match position_of(old(self)@, key@) {
                Some(i) => old(self)@.update(i, (key@, data@)),
                None => old(self)@.push((key@, data@)),
            },
            old(self).wf() ==> final(self).wf(),
    {
        proof {
            lemma_position_from(self@, key@, 0);
        }
        let ghost before = self@;
        match self.position(key.as_str()) {
            Some(i) => {
                self.books[i] = (key, data);
                assert(self@ =~= before.update(i as int, (key@, data@)));
            },
            None => {
                self.books.push((key, data));
                assert(self@ =~= before.push((key@, data@)));
            },
        }
    }
}

} // verus!
