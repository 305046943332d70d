//! The calls that the browser makes to the server: method, address and body.
use vstd::prelude::*;
use vstd::string::StringExecFns;
use crate::model::{Book, BookView};
use crate::text::{decimal_i64, format_i64, utf8_len};

verus! {

/// The HTTP method of a call.
#[derive(Clone, Copy, Debug, PartialEq, Eq, Structural)]
pub enum Method {
    Get,
    Post,
    Put,
    Delete,
}

/// What a call carries: nothing, a plain text, or a book sent as JSON.
#[derive(Clone, Debug)]
pub enum CallBody {
    Empty,
    Text(String),
    BookJson(Book),
}

/// A call to the server, ready to be sent.
#[derive(Clone, Debug)]
pub struct ApiCall {
    pub method: Method,
    pub url: String,
    pub body: CallBody,
}

/// The mathematical value of a [`CallBody`].
pub enum CallBodyView {
    Empty,
    Text(Seq<char>),
    BookJson(BookView),
}

/// The mathematical value of an [`ApiCall`].
pub struct ApiCallView {
    pub method: Method,
    pub url: Seq<char>,
    pub body: CallBodyView,
}

impl View for CallBody {
    type V = CallBodyView;

    open spec fn view(&self) -> CallBodyView {
        match self {
            CallBody::Empty => CallBodyView::Empty,
            CallBody::Text(t) => CallBodyView::Text(t@),
            CallBody::BookJson(b) => CallBodyView::BookJson(b@),
        }
    }
}

impl View for ApiCall {
    type V = ApiCallView;

    open spec fn view(&self) -> ApiCallView {
        ApiCallView { method: self.method, url: self.url@, body: self.body@ }
    }
}

/// The address of the server's collection of books.
pub open spec fn books_url() -> Seq<char> {
    "http://127.0.0.1:8080/api/book"@
}

/// The address of the server's collection of authors.
pub open spec fn authors_url() -> Seq<char> {
    "http://127.0.0.1:8080/api/author"@
}

/// The address to which a book is posted once its new author exists; it
/// names no scheme.
pub open spec fn books_url_without_scheme() -> Seq<char> {
    "127.0.0.1:8080/api/book"@
}

/// The address of the author named `name`.
pub open spec fn author_by_name_url(name: Seq<char>) -> Seq<char> {
    "http://127.0.0.1:8080/api/author/name/"@ + name
}

/// The address of the author with id `id`.
pub open spec fn author_by_id_url(id: i64) -> Seq<char> {
    "http://127.0.0.1:8080/api/author/id/"@ + decimal_i64(id)
}

/// The address of the books that match `query`.
pub open spec fn search_url(query: Seq<char>) -> Seq<char> {
    "http://127.0.0.1:8080/api/book/search/"@ + query
}

/// The address of the book with ISBN `isbn`.
pub open spec fn book_url(isbn: Seq<char>) -> Seq<char> {
    "http://127.0.0.1:8080/api/book/"@ + isbn
}

/// The address to which the deletion of a book goes; it names neither
/// scheme nor port.
pub open spec fn delete_url(isbn: Seq<char>) -> Seq<char> {
    "127.0.0.1/api/book/"@ + isbn
}

/// The addresses of the calls, written out: the books and authors of the
/// server at `http://127.0.0.1:8080/api`, an author by name or by decimal
/// id, a search, and a book by ISBN; the post of a book with a new author
/// names no scheme, and a deletion names neither scheme nor port. A search
/// is sent only for a text of more than two bytes.
pub proof fn law_call_addresses(name: Seq<char>, isbn: Seq<char>, query: Seq<char>, id: i64)
    ensures
        books_url() == "http://127.0.0.1:8080/api/book"@,
        authors_url() == "http://127.0.0.1:8080/api/author"@,
        books_url_without_scheme() == "127.0.0.1:8080/api/book"@,
        author_by_name_url(name) == "http://127.0.0.1:8080/api/author/name/"@ + name,
        author_by_id_url(id) == "http://127.0.0.1:8080/api/author/id/"@ + decimal_i64(id),
        search_url(query) == "http://127.0.0.1:8080/api/book/search/"@ + query,
        book_url(isbn) == "http://127.0.0.1:8080/api/book/"@ + isbn,
        delete_url(isbn) == "127.0.0.1/api/book/"@ + isbn,
        SEARCH_MIN_BYTES == 2,
{
}

/// The fewest bytes that a search text must exceed before it is sent.
pub const SEARCH_MIN_BYTES: usize = 2;

/// Post a new book.
pub fn add_book_call(book: Book) -> (call: ApiCall)
    ensures
        call@ == (ApiCallView {
            method: Method::Post,
            url: books_url(),
            body: CallBodyView::BookJson(book@),
        }),
{
    ApiCall {
        method: Method::Post,
        url: "http://127.0.0.1:8080/api/book".to_owned(),
        body: CallBody::BookJson(book),
    }
}

/// Post a book whose author has just been created.
pub fn add_book_after_author_call(book: Book) -> (call: ApiCall)
    ensures
        call@ == (ApiCallView {
            method: Method::Post,
            url: books_url_without_scheme(),
            body: CallBodyView::BookJson(book@),
        }),
{
    ApiCall {
        method: Method::Post,
        url: "127.0.0.1:8080/api/book".to_owned(),
        body: CallBody::BookJson(book),
    }
}

/// Post a new author; the body is the author's name.
pub fn add_author_call(name: &str) -> (call: ApiCall)
    ensures
        call@ == (ApiCallView {
            method: Method::Post,
            url: authors_url(),
            body: CallBodyView::Text(name@),
        }),
{
    ApiCall {
        method: Method::Post,
        url: "http://127.0.0.1:8080/api/author".to_owned(),
        body: CallBody::Text(name.to_owned()),
    }
}

/// Fetch every author.
pub fn all_authors_call() -> (call: ApiCall)
    ensures
        call@ == (ApiCallView { method: Method::Get, url: authors_url(), body: CallBodyView::Empty }),
{
    ApiCall {
        method: Method::Get,
        url: "http://127.0.0.1:8080/api/author".to_owned(),
        body: CallBody::Empty,
    }
}

/// Fetch the author named `name`.
pub fn author_by_name_call(name: &str) -> (call: ApiCall)
    ensures
        call@ == (ApiCallView {
            method: Method::Get,
            url: author_by_name_url(name@),
            body: CallBodyView::Empty,
        }),
{
    let url = "http://127.0.0.1:8080/api/author/name/".to_owned().concat(name);
    ApiCall { method: Method::Get, url, body: CallBody::Empty }
}

/// Fetch the author with id `id`.
pub fn author_by_id_call(id: i64) -> (call: ApiCall)
    ensures
        call@ == (ApiCallView {
            method: Method::Get,
            url: author_by_id_url(id),
            body: CallBodyView::Empty,
        }),
{
    let digits = format_i64(id);
    let url = "http://127.0.0.1:8080/api/author/id/".to_owned().concat(digits.as_str());
    ApiCall { method: Method::Get, url, body: CallBody::Empty }
}

/// Search the books for `query`; a query of at most two bytes sends
/// nothing, and the list of results is then emptied.
pub fn search_call(query: &str) -> (call: Option<ApiCall>)
    ensures
        call is Some <==> utf8_len(query@) > SEARCH_MIN_BYTES,
        call matches Some(c) ==> c@ == (ApiCallView {
            method: Method::Get,
            url: search_url(query@),
            body: CallBodyView::Empty,
        }),
{
    if query.as_bytes().len() > SEARCH_MIN_BYTES {
        let url = "http://127.0.0.1:8080/api/book/search/".to_owned().concat(query);
        Some(ApiCall { method: Method::Get, url, body: CallBody::Empty })
    } else {
        None
    }
}

/// Replace the book that had ISBN `prev_isbn` by `book`.
pub fn update_book_call(prev_isbn: &str, book: Book) -> (call: ApiCall)
    ensures
        call@ == (ApiCallView {
            method: Method::Put,
            url: book_url(prev_isbn@),
            body: CallBodyView::BookJson(book@),
        }),
{
    let url = "http://127.0.0.1:8080/api/book/".to_owned().concat(prev_isbn);
    ApiCall { method: Method::Put, url, body: CallBody::BookJson(book) }
}

/// Delete the book with ISBN `isbn`.
pub fn delete_book_call(isbn: &str) -> (call: ApiCall)
    ensures
        call@ == (ApiCallView {
            method: Method::Delete,
            url: delete_url(isbn@),
            body: CallBodyView::Empty,
        }),
{
    let url = "127.0.0.1/api/book/".to_owned().concat(isbn);
    ApiCall { method: Method::Delete, url, body: CallBody::Empty }
}

} // verus!
