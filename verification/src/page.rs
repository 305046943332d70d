//! The state that the pages of the browser keep between events.
use vstd::prelude::*;
use vstd::string::StringExecFns;
use crate::model::{Author, Book, BookView, authors_view, opt_string_view};
use crate::catalog::{first_with_id, get_author_by_id, opt_author_view};

verus! {

/// Whether the main page shows the form that adds a book.
#[derive(Clone, Copy, Debug)]
pub struct CatalogPage {
    pub show_add_book: bool,
}

impl CatalogPage {
    /// The page as it first appears: the form is hidden.
    pub fn new() -> (p: CatalogPage)
        ensures
            !p.show_add_book,
    {
        CatalogPage { show_add_book: false }
    }

    /// "Add Book" was clicked: the form is shown.
    pub fn open_add_book(&mut self)
        ensures
            final(self).show_add_book,
    {
        self.show_add_book = true;
    }

    /// The form reported that it is done; it stays shown only if it asked to.
    pub fn finish_add_book(&mut self, keep_open: bool)
        ensures
            final(self).show_add_book == keep_open,
    {
        self.show_add_book = keep_open;
    }
}

/// The book of the result list that is being edited, if any.
#[derive(Clone, Debug)]
pub struct BookList {
    pub book_to_edit: Option<Book>,
}

pub open spec fn opt_book_view(o: Option<Book>) -> Option<BookView> {
    match o {
        Some(b) => Some(b@),
        None => None,
    }
}

impl BookList {
    /// No book is being edited.
    pub fn new() -> (l: BookList)
        ensures
            l.book_to_edit is None,
    {
        BookList { book_to_edit: None }
    }

    /// "Edit Book" was clicked on `book`: it is the one being edited.
    pub fn edit(&mut self, book: Book)
        ensures
            opt_book_view(final(self).book_to_edit) == Some(book@),
    {
        self.book_to_edit = Some(book);
    }

    /// The edit form was closed: no book is being edited.
    pub fn close_edit(&mut self)
        ensures
            final(self).book_to_edit is None,
    {
        self.book_to_edit = None;
    }
}

/// One event of the result list, as a mathematical value: "Edit Book" on a
/// book, or the edit form closed.
pub enum BookListStep {
    Edit(BookView),
    Close,
}

/// The book being edited after the events `es`, in turn, from `editing`.
pub open spec fn book_list_run(editing: Option<BookView>, es: Seq<BookListStep>) -> Option<BookView>
    decreases es.len(),
{
    if es.len() == 0 {
        editing
    } else {
        match es.last() {
            BookListStep::Edit(b) => Some(b),
            BookListStep::Close => None,
        }
    }
}

/// Whatever edits and closes reach the result list from its start, at most
/// one book is being edited (so at most one edit form is shown): it is the
/// book of the latest edit exactly when no close came after that edit, and
/// none otherwise.
pub proof fn law_book_list_runs(es: Seq<BookListStep>)
    ensures
        book_list_run(None, es) is Some <==> (exists|k: int|
            0 <= k < es.len() && #[trigger] es[k] is Edit && (forall|j: int|
                k < j < es.len() ==> !(es[j] is Close))),
        book_list_run(None, es) matches Some(b) ==> (exists|k: int|
            0 <= k < es.len() && #[trigger] es[k] == BookListStep::Edit(b) && (forall|j: int|
                k < j < es.len() ==> !(es[j] is Edit))),
{
    if es.len() > 0 {
        let n = es.len() - 1;
        assert(es[n] == es.last());
        if es.last() is Close {
            assert forall|k: int|
                0 <= k < es.len() && #[trigger] es[k] is Edit implies !(forall|j: int|
                    k < j < es.len() ==> !(es[j] is Close)) by {
                assert(k < n);
            }
        }
    }
}

/// What the author line of a book shows before its author is known.
pub open spec fn loading_name() -> Seq<char> {
    "...Loading..."@
}

/// The author name shown while the author of a book is fetched.
pub fn loading_author_name() -> (name: String)
    ensures
        name@ == loading_name(),
{
    "...Loading...".to_owned()
}

/// The author line of a book.
pub fn byline(author_name: &str) -> (line: String)
    ensures
        line@ == "By "@ + author_name@,
{
    "By ".to_owned().concat(author_name)
}

/// The text that the author field of the edit form starts with.
pub open spec fn author_field_start() -> Seq<char> {
    "Loading"@
}

/// The author field of the edit form before the authors are fetched.
pub fn author_field_placeholder() -> (text: String)
    ensures
        text@ == author_field_start(),
{
    "Loading".to_owned()
}

/// The text that the description field of the edit form starts with: the
/// book's description, or nothing.
pub fn description_field_text(description: &Option<String>) -> (text: String)
    ensures
        text@ == match opt_string_view(*description) {
            Some(d) => d,
            None => Seq::<char>::empty(),
        },
{
    match description {
        Some(d) => d.clone(),
        None => String::new(),
    }
}

/// The name that the author field of the edit form shows once the authors
/// are fetched: that of the first author whose id is the book's.
pub fn author_field_text(authors: &Vec<Author>, author_id: i64) -> (name: Option<String>)
    ensures
        name is Some <==> first_with_id(authors_view(authors@), author_id) is Some,
        name matches Some(n) ==> n@ == first_with_id(authors_view(authors@), author_id)->0.name,
{
    match get_author_by_id(authors, &author_id) {
        Some(a) => {
            assert(opt_author_view(Some(a)) == Some(a@));
            Some(a.name)
        },
        None => None,
    }
}

} // verus!
