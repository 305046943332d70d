use book_library::model::{Author, Book};
use book_library::server::{app_file_name, Action, Event, Handler, Route, SqlParam, Statement, Status};

fn book() -> Book {
    Book { isbn: "1".to_string(), title: "t".to_string(), author_id: 1, image: None, description: None }
}

fn reply_of(action: &Action) -> (Status, Option<String>) {
    match action {
        Action::Respond(r) => (r.status, r.body.clone()),
        _ => panic!("expected a reply, got {:?}", action),
    }
}

#[test]
fn add_book_success_is_created() {
    let (h, a) = Handler::start(Route::AddBook { body: "{}".to_string() });
    assert!(matches!(a, Action::ParseBook(ref b) if b == "{}"));
    let (h, a) = h.step(Event::BookParsed(Some(book())));
    assert!(matches!(a, Action::Connect));
    let (h, a) = h.step(Event::Connected(true));
    match &a {
        Action::Execute(Statement::InsertBook(b)) => assert_eq!(b.isbn, "1"),
        _ => panic!("expected the insert"),
    }
    let (h, a) = h.step(Event::Executed(true));
    assert_eq!(reply_of(&a), (Status::Created, None));
    let (_, a) = h.step(Event::Connected(true));
    assert!(matches!(a, Action::Idle));
}

#[test]
fn add_book_failures_are_500() {
    let (h, _) = Handler::start(Route::AddBook { body: "nope".to_string() });
    let (h, a) = h.step(Event::BookParsed(None));
    assert_eq!(reply_of(&a), (Status::InternalServerError, None));
    assert!(matches!(h, Handler::Finished(Status::InternalServerError)));

    let (h, _) = Handler::start(Route::AddBook { body: "{}".to_string() });
    let (h, _) = h.step(Event::BookParsed(Some(book())));
    let (_, a) = h.step(Event::Connected(false));
    assert_eq!(reply_of(&a), (Status::InternalServerError, None));

    let (h, _) = Handler::start(Route::AddBook { body: "{}".to_string() });
    let (h, _) = h.step(Event::BookParsed(Some(book())));
    let (h, _) = h.step(Event::Connected(true));
    let (_, a) = h.step(Event::Executed(false));
    assert_eq!(reply_of(&a), (Status::InternalServerError, None));
}

#[test]
fn unexpected_event_is_500() {
    let (h, _) = Handler::start(Route::AllAuthors);
    let (_, a) = h.step(Event::Executed(true));
    assert_eq!(reply_of(&a), (Status::InternalServerError, None));
}

#[test]
fn add_author_runs_insert_of_name() {
    let (h, a) = Handler::start(Route::AddAuthor { name: "Ann".to_string() });
    assert!(matches!(a, Action::Connect));
    let (h, a) = h.step(Event::Connected(true));
    match &a {
        Action::Execute(s) => {
            assert!(matches!(s, Statement::InsertAuthor(n) if n == "Ann"));
            assert_eq!(s.sql(), "INSERT INTO Authors (Name) VALUES (?)");
        },
        _ => panic!("expected the insert"),
    }
    let (_, a) = h.step(Event::Executed(true));
    assert_eq!(reply_of(&a), (Status::Created, None));
}

#[test]
fn read_authors_replies_with_json() {
    let (h, _) = Handler::start(Route::AuthorByName { name: "Ann".to_string() });
    let (h, a) = h.step(Event::Connected(true));
    match &a {
        Action::Fetch(s) => {
            assert_eq!(s.sql(), "SELECT Name as name, AuthorID as id FROM Authors WHERE NAME = ?")
        },
        _ => panic!("expected the query"),
    }
    let rows = vec![Author { id: 1, name: "Ann".to_string() }];
    let (h, a) = h.step(Event::Fetched(Some(rows)));
    match &a {
        Action::Encode(r) => assert_eq!(r[0].name, "Ann"),
        _ => panic!("expected encoding"),
    }
    let (h, a) = h.step(Event::Encoded(Some("[...]".to_string())));
    assert_eq!(reply_of(&a), (Status::Success, Some("[...]".to_string())));
    assert!(matches!(h, Handler::Finished(Status::Success)));
}

#[test]
fn read_failures_are_500() {
    let (h, _) = Handler::start(Route::AllAuthors);
    let (h, a) = h.step(Event::Connected(true));
    match &a {
        Action::Fetch(s) => assert_eq!(s.sql(), "SELECT Name as name, AuthorId as id FROM Authors;"),
        _ => panic!("expected the query"),
    }
    let (_, a) = h.step(Event::Fetched(None));
    assert_eq!(reply_of(&a), (Status::InternalServerError, None));
    let (h, _) = Handler::start(Route::AllAuthors);
    let (h, _) = h.step(Event::Connected(true));
    let (h, _) = h.step(Event::Fetched(Some(Vec::new())));
    let (_, a) = h.step(Event::Encoded(None));
    assert_eq!(reply_of(&a), (Status::InternalServerError, None));
}

#[test]
fn insert_book_sql_text() {
    assert_eq!(
        Statement::InsertBook(book()).sql(),
        "INSERT INTO Books (ISBN, Title, AuthorID, Image, Description) VALUES (?, ?, ?, ?, ?)"
    );
}

#[test]
fn app_serves_index_when_no_file() {
    assert_eq!(app_file_name(""), "index.html");
    assert_eq!(app_file_name("main.js"), "main.js");
}

#[test]
fn statement_params_in_order() {
    let b = Book {
        isbn: "9".to_string(),
        title: "T".to_string(),
        author_id: 5,
        image: Some(vec![1]),
        description: None,
    };
    let p = Statement::InsertBook(b).params();
    assert_eq!(p.len(), 5);
    assert!(matches!(&p[0], SqlParam::Text(t) if t == "9"));
    assert!(matches!(&p[1], SqlParam::Text(t) if t == "T"));
    assert!(matches!(&p[2], SqlParam::Integer(5)));
    assert!(matches!(&p[3], SqlParam::OptionalBytes(Some(v)) if v == &vec![1u8]));
    assert!(matches!(&p[4], SqlParam::OptionalText(None)));
    assert!(Statement::SelectAllAuthors.params().is_empty());
    let q = Statement::SelectAuthorsByName("Ann".to_string()).params();
    assert!(matches!(&q[0], SqlParam::Text(t) if t == "Ann"));
    assert!(matches!(&Statement::InsertAuthor("Bo".to_string()).params()[0], SqlParam::Text(t) if t == "Bo"));
}
