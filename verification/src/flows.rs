//! The browser's flow for a book whose author is new: create the author,
//! fetch it back to learn its id, then send the book with that id.
use vstd::prelude::*;
use crate::model::{Author, AuthorView, Book, BookView, opt_string_view};
use crate::api::{
    ApiCall, ApiCallView, CallBodyView, Method, add_author_call, add_book_after_author_call,
    author_by_name_call, authors_url, author_by_name_url, book_url, books_url_without_scheme,
    update_book_call,
};

verus! {

/// Where a new-author flow stands.
#[derive(Clone, Copy, Debug, PartialEq, Eq, Structural)]
pub enum FlowStage {
    /// The author's creation was sent; waiting for the reply.
    CreatingAuthor,
    /// The author was asked for by name; waiting for it.
    FetchingAuthor,
    /// The book was sent; waiting for the reply.
    SendingBook,
    /// Nothing is left to do.
    Finished,
}

/// What came back from the last call.
#[derive(Clone, Debug)]
pub enum FlowEvent {
    /// The server replied to a call whose answer is not read.
    Replied,
    /// The author that was asked for by name.
    AuthorFetched(Author),
}

/// The flow for a book whose author is new. When `prev_isbn` is given the
/// book replaces the one that had that ISBN; otherwise it is added.
#[derive(Clone, Debug)]
pub struct NewAuthorFlow {
    pub stage: FlowStage,
    pub book: Book,
    pub author_name: String,
    pub prev_isbn: Option<String>,
}

/// The mathematical value of a [`NewAuthorFlow`].
pub struct FlowView {
    pub stage: FlowStage,
    pub book: BookView,
    pub author_name: Seq<char>,
    pub prev_isbn: Option<Seq<char>>,
}

/// The mathematical value of a [`FlowEvent`].
pub enum FlowEventView {
    Replied,
    AuthorFetched(AuthorView),
}

impl View for NewAuthorFlow {
    type V = FlowView;

    open spec fn view(&self) -> FlowView {
        FlowView {
            stage: self.stage,
            book: self.book@,
            author_name: self.author_name@,
            prev_isbn: opt_string_view(self.prev_isbn),
        }
    }
}

impl View for FlowEvent {
    type V = FlowEventView;

    open spec fn view(&self) -> FlowEventView {
        match self {
            FlowEvent::Replied => FlowEventView::Replied,
            FlowEvent::AuthorFetched(a) => FlowEventView::AuthorFetched(a@),
        }
    }
}

/// The call that sends `book` at the end of the flow: a post of a new book,
/// or the replacement of the book that had ISBN `prev_isbn`.
pub open spec fn book_call_spec(book: BookView, prev_isbn: Option<Seq<char>>) -> ApiCallView {
    match prev_isbn {
        None => ApiCallView {
            method: Method::Post,
            url: books_url_without_scheme(),
            body: CallBodyView::BookJson(book),
        },
        Some(p) => ApiCallView {
            method: Method::Put,
            url: book_url(p),
            body: CallBodyView::BookJson(book),
        },
    }
}

/// The call that creates the author named `name`.
pub open spec fn create_author_spec(name: Seq<char>) -> ApiCallView {
    ApiCallView { method: Method::Post, url: authors_url(), body: CallBodyView::Text(name) }
}

/// The call that fetches the author named `name`.
pub open spec fn fetch_author_spec(name: Seq<char>) -> ApiCallView {
    ApiCallView { method: Method::Get, url: author_by_name_url(name), body: CallBodyView::Empty }
}

pub open spec fn opt_call_view(c: Option<ApiCall>) -> Option<ApiCallView> {
    match c {
        Some(call) => Some(call@),
        None => None,
    }
}

/// One step of the flow: after the creation's reply the author is fetched;
/// once it is known, the book is sent with its id; after the book's reply
/// the flow is finished. Any other event changes nothing and sends nothing.
pub open spec fn flow_step_spec(f: FlowView, e: FlowEventView) -> (FlowView, Option<ApiCallView>) {
    match (f.stage, e) {
        (FlowStage::CreatingAuthor, FlowEventView::Replied) => (
            FlowView { stage: FlowStage::FetchingAuthor, ..f },
            Some(fetch_author_spec(f.author_name)),
        ),
        (FlowStage::FetchingAuthor, FlowEventView::AuthorFetched(a)) => (
            FlowView { stage: FlowStage::SendingBook, ..f },
            Some(book_call_spec(BookView { author_id: a.id, ..f.book }, f.prev_isbn)),
        ),
        (FlowStage::SendingBook, FlowEventView::Replied) => (
            FlowView { stage: FlowStage::Finished, ..f },
            None,
        ),
        _ => (f, None),
    }
}

impl NewAuthorFlow {
    /// Starts the flow: the first call creates the author.
    pub fn start(book: Book, author_name: String, prev_isbn: Option<String>) -> (r: (
        NewAuthorFlow,
        ApiCall,
    ))
        ensures
            r.0@ == (FlowView {
                stage: FlowStage::CreatingAuthor,
                book: book@,
                author_name: author_name@,
                prev_isbn: opt_string_view(prev_isbn),
            }),
            r.1@ == create_author_spec(author_name@),
    {
        let call = add_author_call(author_name.as_str());
        (NewAuthorFlow { stage: FlowStage::CreatingAuthor, book, author_name, prev_isbn }, call)
    }

    /// The next state, and the next call if there is one.
    pub fn step(self, event: FlowEvent) -> (r: (NewAuthorFlow, Option<ApiCall>))
        ensures
            (r.0@, opt_call_view(r.1)) == flow_step_spec(self@, event@),
    {
        match (self.stage, event) {
            (FlowStage::CreatingAuthor, FlowEvent::Replied) => {
                let call = author_by_name_call(self.author_name.as_str());
                (NewAuthorFlow { stage: FlowStage::FetchingAuthor, ..self }, Some(call))
            },
            (FlowStage::FetchingAuthor, FlowEvent::AuthorFetched(a)) => {
                let book = self.book.duplicate().with_author(a.id);
                let call = match &self.prev_isbn {
                    None => add_book_after_author_call(book),
                    Some(p) => update_book_call(p.as_str(), book),
                };
                (NewAuthorFlow { stage: FlowStage::SendingBook, ..self }, Some(call))
            },
            (FlowStage::SendingBook, FlowEvent::Replied) => {
                (NewAuthorFlow { stage: FlowStage::Finished, ..self }, None)
            },
            _ => (self, None),
        }
    }
}

/// A whole run: created, fetched, sent. The three calls come in that order:
/// first a post of the author's name to the authors, then a fetch of the
/// author by that name, then the book. The book sent is the typed book with
/// its author id replaced by the fetched author's id and every other field
/// (ISBN, title, picture, description) kept; it is posted to the books when
/// new and put at its old ISBN when edited. Then the flow is finished and
/// sends nothing more.
pub proof fn law_new_author_flow(
    book: BookView,
    author_name: Seq<char>,
    prev_isbn: Option<Seq<char>>,
    fetched: AuthorView,
    later: FlowEventView,
)
    ensures
        create_author_spec(author_name) == (ApiCallView {
            method: Method::Post,
            url: "http://127.0.0.1:8080/api/author"@,
            body: CallBodyView::Text(author_name),
        }),
        ({
            let f0 = FlowView { stage: FlowStage::CreatingAuthor, book, author_name, prev_isbn };
            let (f1, c1) = flow_step_spec(f0, FlowEventView::Replied);
            let (f2, c2) = flow_step_spec(f1, FlowEventView::AuthorFetched(fetched));
            let (f3, c3) = flow_step_spec(f2, FlowEventView::Replied);
            let (f4, c4) = flow_step_spec(f3, later);
            &&& c1 == Some(
                ApiCallView {
                    method: Method::Get,
                    url: "http://127.0.0.1:8080/api/author/name/"@ + author_name,
                    body: CallBodyView::Empty,
                },
            )
            &&& c2 is Some
            &&& c2->0.body matches CallBodyView::BookJson(sent) && sent.author_id == fetched.id
                && sent.isbn == book.isbn && sent.title == book.title && sent.image == book.image
                && sent.description == book.description
            &&& prev_isbn is None ==> c2->0.method == Method::Post && c2->0.url
                == "127.0.0.1:8080/api/book"@
            &&& prev_isbn matches Some(p) ==> c2->0.method == Method::Put && c2->0.url
                == "http://127.0.0.1:8080/api/book/"@ + p
            &&& c3 is None
            &&& f3.stage == FlowStage::Finished
            &&& f4 == f3 && c4 is None
        }),
{
}

} // verus!
