use book_library::catalog::{find_author_by_name, get_author_by_id};
use book_library::model::{Author, Book};

fn author(id: i64, name: &str) -> Author {
    Author { id, name: name.to_string() }
}

fn sample() -> Vec<Author> {
    vec![author(1, "Ursula"), author(2, "Terry"), author(2, "Second Terry"), author(3, "Terry")]
}

#[test]
fn get_author_by_id_finds_first_with_id() {
    let found = get_author_by_id(&sample(), &2).unwrap();
    assert_eq!(found.id, 2);
    assert_eq!(found.name, "Terry");
}

#[test]
fn get_author_by_id_none_when_absent() {
    assert!(get_author_by_id(&sample(), &7).is_none());
    assert!(get_author_by_id(&Vec::new(), &1).is_none());
}

#[test]
fn find_author_by_name_finds_first_with_name() {
    let found = find_author_by_name(&sample(), &"Terry".to_string()).unwrap();
    assert_eq!(found.id, 2);
    assert_eq!(found.name, "Terry");
}

#[test]
fn find_author_by_name_is_exact() {
    assert!(find_author_by_name(&sample(), &"terry".to_string()).is_none());
    assert!(find_author_by_name(&sample(), &"Terry ".to_string()).is_none());
    assert!(find_author_by_name(&Vec::new(), &String::new()).is_none());
}

#[test]
fn with_author_changes_only_the_author() {
    let book = Book {
        isbn: "9780261103573".to_string(),
        title: "The Hobbit".to_string(),
        author_id: 0,
        image: Some(vec![1, 2, 3]),
        description: Some("There and back".to_string()),
    };
    let moved = book.clone().with_author(42);
    assert_eq!(moved.author_id, 42);
    assert_eq!(moved.isbn, book.isbn);
    assert_eq!(moved.title, book.title);
    assert_eq!(moved.image, book.image);
    assert_eq!(moved.description, book.description);
}

#[test]
fn author_duplicate_is_equal() {
    let a = author(-5, "Ünïcode");
    let b = a.duplicate();
    assert_eq!(a.id, b.id);
    assert_eq!(a.name, b.name);
}
