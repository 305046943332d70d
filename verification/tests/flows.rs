use book_library::api::{CallBody, Method};
use book_library::flows::{FlowEvent, FlowStage, NewAuthorFlow};
use book_library::model::{Author, Book};

fn book() -> Book {
    Book {
        isbn: "0123456789".to_string(),
        title: "Earthsea".to_string(),
        author_id: 0,
        image: Some(vec![9]),
        description: Some("d".to_string()),
    }
}

#[test]
fn new_author_flow_adds_book_with_fetched_id() {
    let (flow, call) = NewAuthorFlow::start(book(), "Le Guin".to_string(), None);
    assert_eq!(call.method, Method::Post);
    assert_eq!(call.url, "http://127.0.0.1:8080/api/author");
    assert!(matches!(call.body, CallBody::Text(ref t) if t == "Le Guin"));
    let (flow, call) = flow.step(FlowEvent::Replied);
    let call = call.unwrap();
    assert_eq!(call.method, Method::Get);
    assert_eq!(call.url, "http://127.0.0.1:8080/api/author/name/Le Guin");
    let (flow, call) = flow.step(FlowEvent::AuthorFetched(Author { id: 31, name: "Le Guin".to_string() }));
    let call = call.unwrap();
    assert_eq!(call.method, Method::Post);
    assert_eq!(call.url, "127.0.0.1:8080/api/book");
    match call.body {
        CallBody::BookJson(b) => {
            assert_eq!(b.author_id, 31);
            assert_eq!(b.isbn, "0123456789");
            assert_eq!(b.image, Some(vec![9]));
            assert_eq!(b.description.as_deref(), Some("d"));
        },
        _ => panic!("expected the book"),
    }
    let (flow, call) = flow.step(FlowEvent::Replied);
    assert!(call.is_none());
    assert_eq!(flow.stage, FlowStage::Finished);
    let (flow, call) = flow.step(FlowEvent::Replied);
    assert!(call.is_none());
    assert_eq!(flow.stage, FlowStage::Finished);
}

#[test]
fn new_author_flow_updates_at_old_isbn() {
    let (flow, _) = NewAuthorFlow::start(book(), "X".to_string(), Some("111".to_string()));
    let (flow, _) = flow.step(FlowEvent::Replied);
    let (_, call) = flow.step(FlowEvent::AuthorFetched(Author { id: 2, name: "X".to_string() }));
    let call = call.unwrap();
    assert_eq!(call.method, Method::Put);
    assert_eq!(call.url, "http://127.0.0.1:8080/api/book/111");
    assert!(matches!(call.body, CallBody::BookJson(ref b) if b.author_id == 2));
}

#[test]
fn new_author_flow_ignores_unexpected_events() {
    let (flow, _) = NewAuthorFlow::start(book(), "X".to_string(), None);
    let (flow, call) = flow.step(FlowEvent::AuthorFetched(Author { id: 2, name: "X".to_string() }));
    assert!(call.is_none());
    assert_eq!(flow.stage, FlowStage::CreatingAuthor);
}

#[test]
fn book_duplicate_is_equal() {
    let b = book();
    let c = b.duplicate();
    assert_eq!(c.isbn, b.isbn);
    assert_eq!(c.image, b.image);
    assert_eq!(c.description, b.description);
}
