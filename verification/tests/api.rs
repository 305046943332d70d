use book_library::api::{
    add_author_call, add_book_after_author_call, add_book_call, all_authors_call, author_by_id_call,
    author_by_name_call, delete_book_call, search_call, update_book_call, CallBody, Method,
};
use book_library::model::Book;

fn book() -> Book {
    Book {
        isbn: "0123456789".to_string(),
        title: "Title".to_string(),
        author_id: 3,
        image: None,
        description: None,
    }
}

#[test]
fn add_book_call_posts_to_books() {
    let call = add_book_call(book());
    assert_eq!(call.method, Method::Post);
    assert_eq!(call.url, "http://127.0.0.1:8080/api/book");
    match call.body {
        CallBody::BookJson(b) => assert_eq!(b.isbn, "0123456789"),
        _ => panic!("expected a book"),
    }
}

#[test]
fn add_book_after_author_call_has_no_scheme() {
    let call = add_book_after_author_call(book());
    assert_eq!(call.method, Method::Post);
    assert_eq!(call.url, "127.0.0.1:8080/api/book");
}

#[test]
fn author_calls() {
    let add = add_author_call("Terry Pratchett");
    assert_eq!(add.method, Method::Post);
    assert_eq!(add.url, "http://127.0.0.1:8080/api/author");
    match add.body {
        CallBody::Text(t) => assert_eq!(t, "Terry Pratchett"),
        _ => panic!("expected a text body"),
    }
    let all = all_authors_call();
    assert_eq!(all.method, Method::Get);
    assert_eq!(all.url, "http://127.0.0.1:8080/api/author");
    assert!(matches!(all.body, CallBody::Empty));
    let by_name = author_by_name_call("Terry");
    assert_eq!(by_name.url, "http://127.0.0.1:8080/api/author/name/Terry");
    assert_eq!(author_by_id_call(17).url, "http://127.0.0.1:8080/api/author/id/17");
    assert_eq!(author_by_id_call(-3).url, "http://127.0.0.1:8080/api/author/id/-3");
    assert_eq!(author_by_id_call(0).url, "http://127.0.0.1:8080/api/author/id/0");
}

#[test]
fn search_needs_more_than_two_bytes() {
    assert!(search_call("").is_none());
    assert!(search_call("ab").is_none());
    assert!(search_call("é").is_none());
    let c = search_call("abc").unwrap();
    assert_eq!(c.method, Method::Get);
    assert_eq!(c.url, "http://127.0.0.1:8080/api/book/search/abc");
    // two characters, but four bytes
    assert_eq!(search_call("éé").unwrap().url, "http://127.0.0.1:8080/api/book/search/éé");
}

#[test]
fn update_and_delete_calls() {
    let up = update_book_call("111", book());
    assert_eq!(up.method, Method::Put);
    assert_eq!(up.url, "http://127.0.0.1:8080/api/book/111");
    let del = delete_book_call("222");
    assert_eq!(del.method, Method::Delete);
    assert_eq!(del.url, "127.0.0.1/api/book/222");
    assert!(matches!(del.body, CallBody::Empty));
}
