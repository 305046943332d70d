//! The server's request handlers, as state machines: each step takes what
//! the last piece of outside work gave back and says what to do next.
use vstd::prelude::*;
use crate::model::{Author, AuthorView, Book, BookView, authors_view};

verus! {

/// A request that the server answers.
#[derive(Clone, Debug)]
pub enum Route {
    /// `POST /api/book`: the body is a book written as JSON.
    AddBook { body: String },
    /// `POST /api/author`: the body is the new author's name.
    AddAuthor { name: String },
    /// `GET /api/author`.
    AllAuthors,
    /// `GET api/author/name/{name}`.
    AuthorByName { name: String },
}

/// A statement run against the database.
#[derive(Clone, Debug)]
pub enum Statement {
    InsertBook(Book),
    InsertAuthor(String),
    SelectAllAuthors,
    SelectAuthorsByName(String),
}

/// The status of a reply.
#[derive(Clone, Copy, Debug, PartialEq, Eq, Structural)]
pub enum Status {
    /// 200: the body holds what was asked for.
    Success,
    /// 201: the record was stored.
    Created,
    /// 500: some step failed.
    InternalServerError,
}

/// A reply to a request.
#[derive(Clone, Debug)]
pub struct Reply {
    pub status: Status,
    pub body: Option<String>,
}

/// What the server is to do next.
#[derive(Clone, Debug)]
pub enum Action {
    /// Read the text as a book written as JSON.
    ParseBook(String),
    /// Open a connection to the database.
    Connect,
    /// Run a statement that changes the database.
    Execute(Statement),
    /// Run a query that reads authors.
    Fetch(Statement),
    /// Write the authors as JSON.
    Encode(Vec<Author>),
    /// Send the reply.
    Respond(Reply),
    /// Nothing: the request was answered.
    Idle,
}

/// What the last piece of outside work gave back.
#[derive(Clone, Debug)]
pub enum Event {
    /// The book that was read, or `None` if the text was no book.
    BookParsed(Option<Book>),
    /// Whether the connection was opened.
    Connected(bool),
    /// Whether the statement was run.
    Executed(bool),
    /// The authors read, or `None` if the query failed.
    Fetched(Option<Vec<Author>>),
    /// The JSON written, or `None` if writing failed.
    Encoded(Option<String>),
}

/// The database work that waits for a connection.
#[derive(Clone, Debug)]
pub enum Pending {
    /// Run a statement that changes the database.
    Execute(Statement),
    /// Run a query that reads authors.
    Fetch(Statement),
}

/// Where a handler stands.
#[derive(Clone, Debug)]
pub enum Handler {
    /// Waiting for the body to be read as a book.
    AwaitingBook,
    /// Waiting for a connection; then the pending work is run.
    AwaitingConnection(Pending),
    /// Waiting for a changing statement to be run.
    AwaitingExecution,
    /// Waiting for the authors to be read.
    AwaitingRows,
    /// Waiting for the authors to be written as JSON.
    AwaitingJson,
    /// The reply with this status was sent.
    Finished(Status),
}

// ----- mathematical values -----

pub enum StatementView {
    InsertBook(BookView),
    InsertAuthor(Seq<char>),
    SelectAllAuthors,
    SelectAuthorsByName(Seq<char>),
}

pub struct ReplyView {
    pub status: Status,
    pub body: Option<Seq<char>>,
}

pub enum ActionView {
    ParseBook(Seq<char>),
    Connect,
    Execute(StatementView),
    Fetch(StatementView),
    Encode(Seq<AuthorView>),
    Respond(ReplyView),
    Idle,
}

pub enum EventView {
    BookParsed(Option<BookView>),
    Connected(bool),
    Executed(bool),
    Fetched(Option<Seq<AuthorView>>),
    Encoded(Option<Seq<char>>),
}

pub enum PendingView {
    Execute(StatementView),
    Fetch(StatementView),
}

pub enum HandlerView {
    AwaitingBook,
    AwaitingConnection(PendingView),
    AwaitingExecution,
    AwaitingRows,
    AwaitingJson,
    Finished(Status),
}

pub enum RouteView {
    AddBook { body: Seq<char> },
    AddAuthor { name: Seq<char> },
    AllAuthors,
    AuthorByName { name: Seq<char> },
}

impl View for Statement {
    type V = StatementView;

    open spec fn view(&self) -> StatementView {
        match self {
            Statement::InsertBook(b) => StatementView::InsertBook(b@),
            Statement::InsertAuthor(n) => StatementView::InsertAuthor(n@),
            Statement::SelectAllAuthors => StatementView::SelectAllAuthors,
            Statement::SelectAuthorsByName(n) => StatementView::SelectAuthorsByName(n@),
        }
    }
}

impl View for Reply {
    type V = ReplyView;

    open spec fn view(&self) -> ReplyView {
        ReplyView { status: self.status, body: crate::model::opt_string_view(self.body) }
    }
}

impl View for Action {
    type V = ActionView;

    open spec fn view(&self) -> ActionView {
        match self {
            Action::ParseBook(t) => ActionView::ParseBook(t@),
            Action::Connect => ActionView::Connect,
            Action::Execute(s) => ActionView::Execute(s@),
            Action::Fetch(s) => ActionView::Fetch(s@),
            Action::Encode(a) => ActionView::Encode(authors_view(a@)),
            Action::Respond(r) => ActionView::Respond(r@),
            Action::Idle => ActionView::Idle,
        }
    }
}

pub open spec fn opt_authors_view(o: Option<Vec<Author>>) -> Option<Seq<AuthorView>> {
    match o {
        Some(v) => Some(authors_view(v@)),
        None => None,
    }
}

impl View for Event {
    type V = EventView;

    open spec fn view(&self) -> EventView {
        match self {
            Event::BookParsed(b) => EventView::BookParsed(crate::page::opt_book_view(*b)),
            Event::Connected(c) => EventView::Connected(*c),
            Event::Executed(x) => EventView::Executed(*x),
            Event::Fetched(a) => EventView::Fetched(opt_authors_view(*a)),
            Event::Encoded(j) => EventView::Encoded(crate::model::opt_string_view(*j)),
        }
    }
}

impl View for Pending {
    type V = PendingView;

    open spec fn view(&self) -> PendingView {
        match self {
            Pending::Execute(s) => PendingView::Execute(s@),
            Pending::Fetch(s) => PendingView::Fetch(s@),
        }
    }
}

impl View for Handler {
    type V = HandlerView;

    open spec fn view(&self) -> HandlerView {
        match self {
            Handler::AwaitingBook => HandlerView::AwaitingBook,
            Handler::AwaitingConnection(p) => HandlerView::AwaitingConnection(p@),
            Handler::AwaitingExecution => HandlerView::AwaitingExecution,
            Handler::AwaitingRows => HandlerView::AwaitingRows,
            Handler::AwaitingJson => HandlerView::AwaitingJson,
            Handler::Finished(s) => HandlerView::Finished(*s),
        }
    }
}

impl View for Route {
    type V = RouteView;

    open spec fn view(&self) -> RouteView {
        match self {
            Route::AddBook { body } => RouteView::AddBook { body: body@ },
            Route::AddAuthor { name } => RouteView::AddAuthor { name: name@ },
            Route::AllAuthors => RouteView::AllAuthors,
            Route::AuthorByName { name } => RouteView::AuthorByName { name: name@ },
        }
    }
}

// ----- the machine -----

/// The reply to a failed step.
pub open spec fn failure() -> (HandlerView, ActionView) {
    (
        HandlerView::Finished(Status::InternalServerError),
        ActionView::Respond(ReplyView { status: Status::InternalServerError, body: None }),
    )
}

/// Where a handler for `route` starts, and its first action.
pub open spec fn start_spec(route: RouteView) -> (HandlerView, ActionView) {
    match route {
        RouteView::AddBook { body } => (HandlerView::AwaitingBook, ActionView::ParseBook(body)),
        RouteView::AddAuthor { name } => (
            HandlerView::AwaitingConnection(PendingView::Execute(StatementView::InsertAuthor(name))),
            ActionView::Connect,
        ),
        RouteView::AllAuthors => (
            HandlerView::AwaitingConnection(PendingView::Fetch(StatementView::SelectAllAuthors)),
            ActionView::Connect,
        ),
        RouteView::AuthorByName { name } => (
            HandlerView::AwaitingConnection(
                PendingView::Fetch(StatementView::SelectAuthorsByName(name)),
            ),
            ActionView::Connect,
        ),
    }
}

/// One step of a handler in state `h` on event `e`: every failure, and
/// every event that the state does not wait for, is answered with 500; an
/// answered request does nothing more.
pub open spec fn step_spec(h: HandlerView, e: EventView) -> (HandlerView, ActionView) {
    match h {
        HandlerView::Finished(s) => (HandlerView::Finished(s), ActionView::Idle),
        HandlerView::AwaitingBook => match e {
            EventView::BookParsed(Some(b)) => (
                HandlerView::AwaitingConnection(PendingView::Execute(StatementView::InsertBook(b))),
                ActionView::Connect,
            ),
            _ => failure(),
        },
        HandlerView::AwaitingConnection(next) => match e {
            EventView::Connected(true) => match next {
                PendingView::Execute(st) => (HandlerView::AwaitingExecution, ActionView::Execute(st)),
                PendingView::Fetch(st) => (HandlerView::AwaitingRows, ActionView::Fetch(st)),
            },
            _ => failure(),
        },
        HandlerView::AwaitingExecution => match e {
            EventView::Executed(true) => (
                HandlerView::Finished(Status::Created),
                ActionView::Respond(ReplyView { status: Status::Created, body: None }),
            ),
            _ => failure(),
        },
        HandlerView::AwaitingRows => match e {
            EventView::Fetched(Some(rows)) => (HandlerView::AwaitingJson, ActionView::Encode(rows)),
            _ => failure(),
        },
        HandlerView::AwaitingJson => match e {
            EventView::Encoded(Some(json)) => (
                HandlerView::Finished(Status::Success),
                ActionView::Respond(ReplyView { status: Status::Success, body: Some(json) }),
            ),
            _ => failure(),
        },
    }
}

fn fail() -> (r: (Handler, Action))
    ensures
        (r.0@, r.1@) == failure(),
{
    (
        Handler::Finished(Status::InternalServerError),
        Action::Respond(Reply { status: Status::InternalServerError, body: None }),
    )
}

impl Handler {
    /// The handler of `route` and its first action.
    pub fn start(route: Route) -> (r: (Handler, Action))
        ensures
            (r.0@, r.1@) == start_spec(route@),
    {
        match route {
            Route::AddBook { body } => (Handler::AwaitingBook, Action::ParseBook(body)),
            Route::AddAuthor { name } => (
                Handler::AwaitingConnection(Pending::Execute(Statement::InsertAuthor(name))),
                Action::Connect,
            ),
            Route::AllAuthors => (
                Handler::AwaitingConnection(Pending::Fetch(Statement::SelectAllAuthors)),
                Action::Connect,
            ),
            Route::AuthorByName { name } => (
                Handler::AwaitingConnection(Pending::Fetch(Statement::SelectAuthorsByName(name))),
                Action::Connect,
            ),
        }
    }

    /// The next state and action after `event`.
    pub fn step(self, event: Event) -> (r: (Handler, Action))
        ensures
            (r.0@, r.1@) == step_spec(self@, event@),
    {
        match self {
            Handler::Finished(s) => (Handler::Finished(s), Action::Idle),
            Handler::AwaitingBook => match event {
                Event::BookParsed(Some(b)) => (
                    Handler::AwaitingConnection(Pending::Execute(Statement::InsertBook(b))),
                    Action::Connect,
                ),
                _ => fail(),
            },
            Handler::AwaitingConnection(next) => match event {
                Event::Connected(true) => match next {
                    Pending::Execute(s) => (Handler::AwaitingExecution, Action::Execute(s)),
                    Pending::Fetch(s) => (Handler::AwaitingRows, Action::Fetch(s)),
                },
                _ => fail(),
            },
            Handler::AwaitingExecution => match event {
                Event::Executed(true) => (
                    Handler::Finished(Status::Created),
                    Action::Respond(Reply { status: Status::Created, body: None }),
                ),
                _ => fail(),
            },
            Handler::AwaitingRows => match event {
                Event::Fetched(Some(rows)) => (Handler::AwaitingJson, Action::Encode(rows)),
                _ => fail(),
            },
            Handler::AwaitingJson => match event {
                Event::Encoded(Some(json)) => (
                    Handler::Finished(Status::Success),
                    Action::Respond(Reply { status: Status::Success, body: Some(json) }),
                ),
                _ => fail(),
            },
        }
    }
}

// ----- what a statement says to the database -----

/// The SQL text of a statement; its `?` are bound, in order, to the
/// statement's values.
pub open spec fn sql_spec(st: StatementView) -> Seq<char> {
    match st {
        StatementView::InsertBook(_) =>
            "INSERT INTO Books (ISBN, Title, AuthorID, Image, Description) VALUES (?, ?, ?, ?, ?)"@,
        StatementView::InsertAuthor(_) => "INSERT INTO Authors (Name) VALUES (?)"@,
        StatementView::SelectAllAuthors => "SELECT Name as name, AuthorId as id FROM Authors;"@,
        StatementView::SelectAuthorsByName(_) =>
            "SELECT Name as name, AuthorID as id FROM Authors WHERE NAME = ?"@,
    }
}

impl Statement {
    /// The SQL text of this statement.
    pub fn sql(&self) -> (text: &'static str)
        ensures
            text@ == sql_spec(self@),
    {
        match self {
            Statement::InsertBook(_) =>
                "INSERT INTO Books (ISBN, Title, AuthorID, Image, Description) VALUES (?, ?, ?, ?, ?)",
            Statement::InsertAuthor(_) => "INSERT INTO Authors (Name) VALUES (?)",
            Statement::SelectAllAuthors => "SELECT Name as name, AuthorId as id FROM Authors;",
            Statement::SelectAuthorsByName(_) =>
                "SELECT Name as name, AuthorID as id FROM Authors WHERE NAME = ?",
        }
    }
}

/// A value bound to a `?` of a statement.
#[derive(Clone, Debug)]
pub enum SqlParam {
    Text(String),
    Integer(i64),
    OptionalBytes(Option<Vec<u8>>),
    OptionalText(Option<String>),
}

/// The mathematical value of a [`SqlParam`].
pub enum SqlParamView {
    Text(Seq<char>),
    Integer(i64),
    OptionalBytes(Option<Seq<u8>>),
    OptionalText(Option<Seq<char>>),
}

impl View for SqlParam {
    type V = SqlParamView;

    open spec fn view(&self) -> SqlParamView {
        match self {
            SqlParam::Text(t) => SqlParamView::Text(t@),
            SqlParam::Integer(i) => SqlParamView::Integer(*i),
            SqlParam::OptionalBytes(b) => SqlParamView::OptionalBytes(crate::model::opt_bytes_view(*b)),
            SqlParam::OptionalText(t) => SqlParamView::OptionalText(crate::model::opt_string_view(*t)),
        }
    }
}

/// The values bound, in order, to the `?` of a statement's SQL text.
pub open spec fn params_spec(st: StatementView) -> Seq<SqlParamView> {
    match st {
        StatementView::InsertBook(b) => seq![
            SqlParamView::Text(b.isbn),
            SqlParamView::Text(b.title),
            SqlParamView::Integer(b.author_id),
            SqlParamView::OptionalBytes(b.image),
            SqlParamView::OptionalText(b.description),
        ],
        StatementView::InsertAuthor(name) => seq![SqlParamView::Text(name)],
        StatementView::SelectAllAuthors => Seq::empty(),
        StatementView::SelectAuthorsByName(name) => seq![SqlParamView::Text(name)],
    }
}

impl Statement {
    /// The values bound, in order, to the `?` of this statement's SQL text.
    pub fn params(&self) -> (values: Vec<SqlParam>)
        ensures
            values@.map_values(|v: SqlParam| v@) == params_spec(self@),
    {
        let mut values: Vec<SqlParam> = Vec::new();
        match self {
            Statement::InsertBook(b) => {
                let image = match &b.image {
                    Some(bytes) => Some(crate::model::copy_bytes(bytes)),
                    None => None,
                };
                let description = match &b.description {
                    Some(d) => Some(d.clone()),
                    None => None,
                };
                values.push(SqlParam::Text(b.isbn.clone()));
                values.push(SqlParam::Text(b.title.clone()));
                values.push(SqlParam::Integer(b.author_id));
                values.push(SqlParam::OptionalBytes(image));
                values.push(SqlParam::OptionalText(description));
            },
            Statement::InsertAuthor(name) => {
                values.push(SqlParam::Text(name.clone()));
            },
            Statement::SelectAllAuthors => {},
            Statement::SelectAuthorsByName(name) => {
                values.push(SqlParam::Text(name.clone()));
            },
        }
        assert(values@.map_values(|v: SqlParam| v@) =~= params_spec(self@));
        values
    }
}

/// What each statement binds to its `?`, in order: an insert of a book
/// binds its ISBN, title, author id, picture and description; an insert of
/// an author, and a look-up of authors by name, bind exactly that name;
/// listing all authors binds nothing.
pub proof fn law_statement_params(b: BookView, name: Seq<char>)
    ensures
        params_spec(StatementView::InsertBook(b)).len() == 5,
        params_spec(StatementView::InsertBook(b))[0] == SqlParamView::Text(b.isbn),
        params_spec(StatementView::InsertBook(b))[1] == SqlParamView::Text(b.title),
        params_spec(StatementView::InsertBook(b))[2] == SqlParamView::Integer(b.author_id),
        params_spec(StatementView::InsertBook(b))[3] == SqlParamView::OptionalBytes(b.image),
        params_spec(StatementView::InsertBook(b))[4] == SqlParamView::OptionalText(b.description),
        params_spec(StatementView::InsertAuthor(name)).len() == 1,
        params_spec(StatementView::InsertAuthor(name))[0] == SqlParamView::Text(name),
        params_spec(StatementView::SelectAuthorsByName(name)).len() == 1,
        params_spec(StatementView::SelectAuthorsByName(name))[0] == SqlParamView::Text(name),
        params_spec(StatementView::SelectAllAuthors).len() == 0,
{
}

// ----- the page files -----

/// The file of the `dist` directory that `GET /app/{filename}` serves: the
/// name asked for, or `index.html` when none is.
pub open spec fn app_file_spec(filename: Seq<char>) -> Seq<char> {
    if filename.len() == 0 {
        "index.html"@
    } else {
        filename
    }
}

/// With no file named, the page `index.html` is served; any named file is
/// served under exactly its name.
pub proof fn law_app_file(filename: Seq<char>)
    ensures
        filename.len() == 0 ==> app_file_spec(filename) == "index.html"@,
        filename.len() > 0 ==> app_file_spec(filename) == filename,
{
}

/// The file of the `dist` directory that `GET /app/{filename}` serves.
pub fn app_file_name(filename: &str) -> (name: String)
    ensures
        name@ == app_file_spec(filename@),
{
    if filename.is_empty() {
        "index.html".to_owned()
    } else {
        filename.to_owned()
    }
}

// ----- runs of the machine and what they guarantee -----

/// The state reached and the actions taken when a handler in state `h`
/// receives the events `es` in turn.
pub open spec fn run_spec(h: HandlerView, es: Seq<EventView>) -> (HandlerView, Seq<ActionView>)
    decreases es.len(),
{
    if es.len() == 0 {
        (h, Seq::empty())
    } else {
        let (h1, a) = step_spec(h, es[0]);
        let (hn, acts) = run_spec(h1, es.drop_first());
        (hn, seq![a] + acts)
    }
}

/// How many of `acts` are replies.
pub open spec fn replies(acts: Seq<ActionView>) -> nat
    decreases acts.len(),
{
    if acts.len() == 0 {
        0
    } else {
        (if acts[0] is Respond { 1nat } else { 0nat }) + replies(acts.drop_first())
    }
}

proof fn lemma_replies_cons(a: ActionView, acts: Seq<ActionView>)
    ensures
        replies(seq![a] + acts) == (if a is Respond { 1nat } else { 0nat }) + replies(acts),
{
    assert((seq![a] + acts).drop_first() =~= acts);
}

/// Every request is answered at most once: whatever events arrive, a
/// handler sends one reply when it finishes and none before or after, and
/// a finished handler stays finished with the status it replied with.
pub proof fn law_one_reply(h: HandlerView, es: Seq<EventView>)
    ensures
        replies(run_spec(h, es).1) == (if h is Finished || !(run_spec(h, es).0 is Finished) {
            0nat
        } else {
            1nat
        }),
        h matches HandlerView::Finished(s) ==> run_spec(h, es).0 == HandlerView::Finished(s),
    decreases es.len(),
{
    if es.len() > 0 {
        let (h1, a) = step_spec(h, es[0]);
        law_one_reply(h1, es.drop_first());
        lemma_replies_cons(a, run_spec(h1, es.drop_first()).1);
    }
}

/// Adding a book: the reply is 201 exactly when the body reads as a book,
/// the connection opens and the insert runs; any failure is answered with
/// 500. The statement run inserts exactly the book that was read.
pub proof fn law_add_book(body: Seq<char>, parsed: Option<BookView>, connected: bool, executed: bool)
    ensures
        ({
            let (h0, a0) = start_spec(RouteView::AddBook { body });
            let (h, acts) = run_spec(
                h0,
                seq![
                    EventView::BookParsed(parsed),
                    EventView::Connected(connected),
                    EventView::Executed(executed),
                ],
            );
            &&& a0 == ActionView::ParseBook(body)
            &&& h == HandlerView::Finished(
                if parsed is Some && connected && executed {
                    Status::Created
                } else {
                    Status::InternalServerError
                },
            )
            &&& parsed is Some ==> acts[0] == ActionView::Connect
            &&& parsed is Some && connected ==> acts[1] == ActionView::Execute(
                StatementView::InsertBook(parsed->0),
            )
            &&& replies(acts) == 1
        }),
{
    let (h0, a0) = start_spec(RouteView::AddBook { body });
    let es = seq![
        EventView::BookParsed(parsed),
        EventView::Connected(connected),
        EventView::Executed(executed),
    ];
    law_one_reply(h0, es);
    reveal_with_fuel(run_spec, 4);
    assert(es.drop_first().drop_first().drop_first() =~= Seq::<EventView>::empty());
    assert(es.drop_first()[0] == EventView::Connected(connected));
    assert(es.drop_first().drop_first()[0] == EventView::Executed(executed));
}

/// Adding an author: the reply is 201 exactly when the connection opens
/// and the insert runs, and the statement inserts exactly the name sent.
pub proof fn law_add_author(name: Seq<char>, connected: bool, executed: bool)
    ensures
        ({
            let (h0, a0) = start_spec(RouteView::AddAuthor { name });
            let (h, acts) = run_spec(
                h0,
                seq![EventView::Connected(connected), EventView::Executed(executed)],
            );
            &&& a0 == ActionView::Connect
            &&& h == HandlerView::Finished(
                if connected && executed {
                    Status::Created
                } else {
                    Status::InternalServerError
                },
            )
            &&& connected ==> acts[0] == ActionView::Execute(StatementView::InsertAuthor(name))
            &&& replies(acts) == 1
        }),
{
    let (h0, a0) = start_spec(RouteView::AddAuthor { name });
    let es = seq![EventView::Connected(connected), EventView::Executed(executed)];
    law_one_reply(h0, es);
    reveal_with_fuel(run_spec, 3);
    assert(es.drop_first().drop_first() =~= Seq::<EventView>::empty());
    assert(es.drop_first()[0] == EventView::Executed(executed));
}

/// Reading authors (all of them, or those with a name): once connected, the
/// query run is the one for the route, with exactly the name of the path;
/// the reply is 200 exactly when the connection opens, the query succeeds
/// and the rows are written as JSON; its body is that JSON, written from exactly the rows
/// read. Any failure is answered with 500 and no body.
pub proof fn law_read_authors(
    route: RouteView,
    connected: bool,
    rows: Option<Seq<AuthorView>>,
    json: Option<Seq<char>>,
)
    requires
        route is AllAuthors || route is AuthorByName,
    ensures
        ({
            let (h0, a0) = start_spec(route);
            let (h, acts) = run_spec(
                h0,
                seq![
                    EventView::Connected(connected),
                    EventView::Fetched(rows),
                    EventView::Encoded(json),
                ],
            );
            let ok = connected && rows is Some && json is Some;
            &&& a0 == ActionView::Connect
            &&& h == HandlerView::Finished(
                if ok {
                    Status::Success
                } else {
                    Status::InternalServerError
                },
            )
            &&& connected ==> acts[0] == ActionView::Fetch(
                match route {
                    RouteView::AuthorByName { name } => StatementView::SelectAuthorsByName(name),
                    _ => StatementView::SelectAllAuthors,
                },
            )
            &&& connected && rows is Some ==> acts[1] == ActionView::Encode(rows->0)
            &&& ok ==> acts[2] == ActionView::Respond(
                ReplyView { status: Status::Success, body: json },
            )
            &&& replies(acts) == 1
        }),
{
    let (h0, a0) = start_spec(route);
    let es = seq![EventView::Connected(connected), EventView::Fetched(rows), EventView::Encoded(json)];
    law_one_reply(h0, es);
    reveal_with_fuel(run_spec, 4);
    assert(es.drop_first().drop_first().drop_first() =~= Seq::<EventView>::empty());
    assert(es.drop_first()[0] == EventView::Fetched(rows));
    assert(es.drop_first().drop_first()[0] == EventView::Encoded(json));
}

} // verus!
