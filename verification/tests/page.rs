use book_library::cover::{cover_source, image_data_url};
use book_library::isbn::{is_valid_isbn, Pattern, PatternError};
use book_library::model::{Author, Book};
use book_library::page::{
    author_field_placeholder, author_field_text, byline, description_field_text, loading_author_name, BookList,
    CatalogPage,
};

#[test]
fn catalog_page_toggles_form() {
    let mut p = CatalogPage::new();
    assert!(!p.show_add_book);
    p.open_add_book();
    assert!(p.show_add_book);
    p.finish_add_book(false);
    assert!(!p.show_add_book);
    p.finish_add_book(true);
    assert!(p.show_add_book);
}

#[test]
fn book_list_edit_then_close() {
    let mut l = BookList::new();
    let b = Book { isbn: "1".to_string(), title: "t".to_string(), author_id: 2, image: None, description: None };
    l.edit(b);
    assert_eq!(l.book_to_edit.as_ref().unwrap().isbn, "1");
    l.close_edit();
    assert!(l.book_to_edit.is_none());
}

#[test]
fn texts_of_the_pages() {
    assert_eq!(byline("Ann"), "By Ann");
    assert_eq!(loading_author_name(), "...Loading...");
    assert_eq!(author_field_placeholder(), "Loading");
    assert_eq!(description_field_text(&None), "");
    assert_eq!(description_field_text(&Some("d".to_string())), "d");
    let authors = vec![Author { id: 1, name: "A".to_string() }, Author { id: 2, name: "B".to_string() }];
    assert_eq!(author_field_text(&authors, 2).as_deref(), Some("B"));
    assert!(author_field_text(&authors, 5).is_none());
}

#[test]
fn cover_is_a_base64_data_url() {
    assert_eq!(image_data_url(&b"hi".to_vec()), "data:png;base64,aGk=");
    assert_eq!(image_data_url(&Vec::new()), "data:png;base64,");
    assert_eq!(cover_source(&Some(vec![0xff, 0x00, 0x10])).as_deref(), Some("data:png;base64,/wAQ"));
    assert!(cover_source(&None).is_none());
}

#[test]
fn isbn_check_finds_ten_digits_anywhere() {
    assert_eq!(is_valid_isbn("0123456789"), Ok(true));
    assert_eq!(is_valid_isbn("978-3-16-148410-0"), Ok(false));
    assert_eq!(is_valid_isbn("isbn 9783161484100 here"), Ok(true));
    assert_eq!(is_valid_isbn("123456789"), Ok(false));
    assert_eq!(is_valid_isbn(""), Ok(false));
    assert_eq!(is_valid_isbn("ISBN 0123456789"), Ok(true));
    assert_eq!(is_valid_isbn("12345678901234"), Ok(true));
}

#[test]
fn pattern_that_does_not_compile_is_an_error() {
    assert_eq!(Pattern::compile("foo(bar").err(), Some(PatternError::Invalid));
    let p = Pattern::compile("b+").ok().unwrap();
    assert!(p.is_match("abbc"));
    assert!(!p.is_match("ac"));
}

#[test]
fn book_list_keeps_latest_edit_until_closed() {
    let mk = |isbn: &str| Book { isbn: isbn.to_string(), title: "t".to_string(), author_id: 1, image: None, description: None };
    let mut l = BookList::new();
    l.edit(mk("a"));
    l.edit(mk("b"));
    assert_eq!(l.book_to_edit, Some(mk("b")));
    l.close_edit();
    assert!(l.book_to_edit.is_none());
    l.edit(mk("c"));
    assert_eq!(l.book_to_edit, Some(mk("c")));
}

#[test]
fn author_default_is_empty() {
    let a = Author::default();
    assert_eq!(a.id, 0);
    assert_eq!(a.name, "");
}
