use book_library::forms::{
    description_from_input, plan_book_edit, plan_new_book, BookSubmission, FeedbackForm, SubmitOutcome,
    FEEDBACK_DEFAULT_RATING,
};
use book_library::model::Author;

fn authors() -> Vec<Author> {
    vec![Author { id: 4, name: "Le Guin".to_string() }, Author { id: 9, name: "Le Guin".to_string() }]
}

#[test]
fn description_blank_is_none() {
    assert!(description_from_input(String::new()).is_none());
    assert!(description_from_input(" \n\t ".to_string()).is_none());
    assert_eq!(description_from_input(" kept as typed ".to_string()).unwrap(), " kept as typed ");
}

#[test]
fn new_book_with_known_author() {
    match plan_new_book("1234567890".to_string(), "Earthsea".to_string(), &"Le Guin".to_string(), &authors()) {
        BookSubmission::KnownAuthor(b) => {
            assert_eq!(b.author_id, 4);
            assert_eq!(b.isbn, "1234567890");
            assert_eq!(b.title, "Earthsea");
            assert!(b.image.is_none());
            assert!(b.description.is_none());
        },
        _ => panic!("expected a known author"),
    }
}

#[test]
fn new_book_with_new_author() {
    match plan_new_book("1".to_string(), "T".to_string(), &"Nobody".to_string(), &authors()) {
        BookSubmission::NewAuthor { book, author_name } => {
            assert_eq!(book.author_id, 0);
            assert_eq!(author_name, "Nobody");
            // once the server gave the author an id, the book carries it
            assert_eq!(book.with_author(12).author_id, 12);
        },
        _ => panic!("expected a new author"),
    }
}

#[test]
fn edit_book_keeps_image_and_reads_description() {
    match plan_book_edit(
        "9".to_string(),
        "T".to_string(),
        "   ".to_string(),
        Some(vec![7, 8]),
        &"Le Guin".to_string(),
        &authors(),
    ) {
        BookSubmission::KnownAuthor(b) => {
            assert_eq!(b.author_id, 4);
            assert_eq!(b.image, Some(vec![7, 8]));
            assert!(b.description.is_none());
        },
        _ => panic!("expected a known author"),
    }
    match plan_book_edit("9".to_string(), "T".to_string(), "Nice".to_string(), None, &"X".to_string(), &Vec::new()) {
        BookSubmission::NewAuthor { book, author_name } => {
            assert_eq!(book.description.as_deref(), Some("Nice"));
            assert_eq!(author_name, "X");
        },
        _ => panic!("expected a new author"),
    }
}

#[test]
fn feedback_short_text_is_refused() {
    let mut f = FeedbackForm::new();
    assert_eq!(f.rating, FEEDBACK_DEFAULT_RATING);
    f.on_input("   short   ".to_string());
    assert!(matches!(f.on_submit(), SubmitOutcome::Rejected));
    assert_eq!(f.message.as_deref(), Some("Text must be at least 10 characters"));
    assert_eq!(f.text, "   short   ");
    // typing withdraws the message
    f.on_input("x".to_string());
    assert!(f.message.is_none());
}

#[test]
fn feedback_long_text_is_accepted_then_form_empty() {
    let mut f = FeedbackForm::new();
    f.rating = 3;
    f.on_input("0123456789".to_string());
    match f.on_submit() {
        SubmitOutcome::Accepted { logged } => assert_eq!(logged, "0123456789"),
        _ => panic!("expected acceptance"),
    }
    assert_eq!(f.text, "");
    assert_eq!(f.rating, FEEDBACK_DEFAULT_RATING);
    assert!(matches!(f.on_submit(), SubmitOutcome::Rejected));
}

#[test]
fn feedback_counts_bytes_not_characters() {
    let mut f = FeedbackForm::new();
    // five characters, ten bytes
    f.on_input("ééééé".to_string());
    assert!(matches!(f.on_submit(), SubmitOutcome::Accepted { .. }));
    let mut g = FeedbackForm::new();
    g.on_input("  123456789  ".to_string());
    assert!(matches!(g.on_submit(), SubmitOutcome::Rejected));
}

#[test]
fn feedback_message_from_refusal_until_input() {
    let mut f = FeedbackForm::new();
    assert!(matches!(f.on_submit(), SubmitOutcome::Rejected));
    assert!(f.message.is_some());
    assert!(matches!(f.on_submit(), SubmitOutcome::Rejected));
    assert!(f.message.is_some());
    f.on_input("long enough text".to_string());
    assert!(f.message.is_none());
    assert!(matches!(f.on_submit(), SubmitOutcome::Accepted { .. }));
    assert!(f.message.is_none());
    assert_eq!(f.rating, FEEDBACK_DEFAULT_RATING);
}
