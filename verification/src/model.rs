use vstd::prelude::*;

verus! {

/// A book of the catalogue, as the server stores it and the browser shows it.
#[derive(Clone, Debug, PartialEq)]
pub struct Book {
    pub isbn: String,
    pub title: String,
    pub author_id: i64,
    pub image: Option<Vec<u8>>,
    pub description: Option<String>,
}

/// An author of the catalogue.
#[derive(Clone, Debug, Default)]
pub struct Author {
    pub id: i64,
    pub name: String,
}

/// The mathematical value of a [`Book`].
pub struct BookView {
    pub isbn: Seq<char>,
    pub title: Seq<char>,
    pub author_id: i64,
    pub image: Option<Seq<u8>>,
    pub description: Option<Seq<char>>,
}

/// The mathematical value of an [`Author`].
pub struct AuthorView {
    pub id: i64,
    pub name: Seq<char>,
}

pub open spec fn opt_bytes_view(o: Option<Vec<u8>>) -> Option<Seq<u8>> {
    match o {
        Some(v) => Some(v@),
        None => None,
    }
}

pub open spec fn opt_string_view(o: Option<String>) -> Option<Seq<char>> {
    match o {
        Some(s) => Some(s@),
        None => None,
    }
}

impl View for Book {
    type V = BookView;

    open spec fn view(&self) -> BookView {
        BookView {
            isbn: self.isbn@,
            title: self.title@,
            author_id: self.author_id,
            image: opt_bytes_view(self.image),
            description: opt_string_view(self.description),
        }
    }
}

impl View for Author {
    type V = AuthorView;

    open spec fn view(&self) -> AuthorView {
        AuthorView { id: self.id, name: self.name@ }
    }
}

/// The views of a list of authors, in order.
pub open spec fn authors_view(authors: Seq<Author>) -> Seq<AuthorView> {
    authors.map_values(|a: Author| a@)
}

impl Author {
    /// A fresh copy of this author.
    pub fn duplicate(&self) -> (copy: Author)
        ensures
            copy@ == self@,
    {
        Author { id: self.id, name: self.name.clone() }
    }
}

/// A fresh copy of `bytes`.
pub fn copy_bytes(bytes: &Vec<u8>) -> (copy: Vec<u8>)
    ensures
        copy@ == bytes@,
{
    let mut copy: Vec<u8> = Vec::new();
    let mut i: usize = 0;
    while i < bytes.len()
        invariant
            i <= bytes.len(),
            copy@ == bytes@.subrange(0, i as int),
        decreases bytes.len() - i,
    {
        copy.push(bytes[i]);
        i = i + 1;
        assert(copy@ =~= bytes@.subrange(0, i as int));
    }
    assert(bytes@.subrange(0, i as int) =~= bytes@);
    copy
}

impl Book {
    /// A fresh copy of this book.
    pub fn duplicate(&self) -> (copy: Book)
        ensures
            copy@ == self@,
    {
        let image = match &self.image {
            Some(bytes) => Some(copy_bytes(bytes)),
            None => None,
        };
        let description = match &self.description {
            Some(d) => Some(d.clone()),
            None => None,
        };
        Book {
            isbn: self.isbn.clone(),
            title: self.title.clone(),
            author_id: self.author_id,
            image,
            description,
        }
    }

    /// The same book, attributed to the author with the given id; every
    /// other field is kept.
    pub fn with_author(self, author_id: i64) -> (book: Book)
        ensures
            book@ == (BookView { author_id, ..self@ }),
    {
        Book { author_id, ..self }
    }
}

} // verus!
