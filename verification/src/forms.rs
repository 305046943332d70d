//! What the forms of the browser do with what was typed into them.
use vstd::prelude::*;
use crate::model::{Author, Book, BookView, authors_view};
use crate::catalog::{find_author_by_name, first_with_name, opt_author_view};
use crate::text::{is_white_space, law_trimmed, trimmed, trimmed_byte_len, utf8_len, lemma_utf8_len_at_least_chars};

verus! {

/// The description that a book gets from the text of its description
/// field: none when the text is blank, else the text as typed.
pub open spec fn description_of(text: Seq<char>) -> Option<Seq<char>> {
    if trimmed(text).len() > 0 {
        Some(text)
    } else {
        None
    }
}

/// A description is dropped exactly when its text is empty or all white
/// space; otherwise it is kept exactly as typed.
pub proof fn law_description_of(text: Seq<char>)
    ensures
        description_of(text) is None <==> (forall|i: int|
            0 <= i < text.len() ==> is_white_space(#[trigger] text[i])),
        description_of(text) matches Some(d) ==> d == text,
{
    law_trimmed(text);
    let (a, b) = choose|a: int, b: int|
        0 <= a <= b <= text.len() && #[trigger] text.subrange(a, b) == trimmed(text) && (forall|i: int|
            0 <= i < a ==> is_white_space(#[trigger] text[i])) && (forall|i: int|
            b <= i < text.len() ==> is_white_space(#[trigger] text[i])) && (a < b
            ==> !is_white_space(text[a]) && !is_white_space(text[b - 1]));
    if a == b {
        assert forall|i: int| 0 <= i < text.len() implies is_white_space(#[trigger] text[i]) by {
            if i >= a {
                assert(b <= i);
            }
        }
    }
}

/// The description that a book gets from the text of its description field.
pub fn description_from_input(text: String) -> (description: Option<String>)
    ensures
        description is Some <==> trimmed(text@).len() > 0,
        description matches Some(d) ==> d@ == text@,
{
    let n = trimmed_byte_len(text.as_str());
    proof {
        lemma_utf8_len_at_least_chars(trimmed(text@));
    }
    if n > 0 {
        Some(text)
    } else {
        None
    }
}

/// How a filled-in book form reaches the server.
#[derive(Clone, Debug)]
pub enum BookSubmission {
    /// The author typed in is known: the book is sent with that author's id.
    KnownAuthor(Book),
    /// The author typed in is not known: the author is created first, under
    /// `author_name`, and the book (whose author id is 0 until then) is
    /// sent once the new author's id is known.
    NewAuthor { book: Book, author_name: String },
}

/// The mathematical value of a [`BookSubmission`].
pub enum BookSubmissionView {
    KnownAuthor(BookView),
    NewAuthor { book: BookView, author_name: Seq<char> },
}

impl View for BookSubmission {
    type V = BookSubmissionView;

    open spec fn view(&self) -> BookSubmissionView {
        match self {
            BookSubmission::KnownAuthor(b) => BookSubmissionView::KnownAuthor(b@),
            BookSubmission::NewAuthor { book, author_name } => BookSubmissionView::NewAuthor {
                book: book@,
                author_name: author_name@,
            },
        }
    }
}

/// The submission of a book whose fields other than the author are `draft`
/// (its author id aside), when the author field reads `author_name` and
/// the known authors are `authors`.
pub open spec fn submission_of(
    draft: BookView,
    author_name: Seq<char>,
    authors: Seq<crate::model::AuthorView>,
) -> BookSubmissionView {
    match first_with_name(authors, author_name) {
        Some(a) => BookSubmissionView::KnownAuthor(BookView { author_id: a.id, ..draft }),
        None => BookSubmissionView::NewAuthor {
            book: BookView { author_id: 0, ..draft },
            author_name,
        },
    }
}

/// The book that a submission sends, whichever way its author is resolved.
pub open spec fn submitted_book(s: BookSubmissionView) -> BookView {
    match s {
        BookSubmissionView::KnownAuthor(b) => b,
        BookSubmissionView::NewAuthor { book, .. } => book,
    }
}

/// Whichever way the author is resolved, the book submitted has the typed
/// ISBN, title, picture and description; only its author id depends on the
/// author field. When some known author has the typed name, the book gets
/// the id of the first such author; otherwise the author is to be created
/// under exactly the typed name and the book's author id is 0 until then.
pub proof fn law_submission(draft: BookView, author_name: Seq<char>, authors: Seq<crate::model::AuthorView>)
    ensures
        ({
            let s = submission_of(draft, author_name, authors);
            let b = submitted_book(s);
            &&& b.isbn == draft.isbn
            &&& b.title == draft.title
            &&& b.image == draft.image
            &&& b.description == draft.description
            &&& s is NewAuthor <==> (forall|i: int|
                0 <= i < authors.len() ==> #[trigger] authors[i].name != author_name)
            &&& s matches BookSubmissionView::NewAuthor { book, author_name: n } ==> book.author_id
                == 0 && n == author_name
            &&& s is KnownAuthor ==> exists|k: int|
                0 <= k < authors.len() && #[trigger] authors[k].name == author_name && b.author_id
                    == authors[k].id && (forall|j: int| 0 <= j < k ==> authors[j].name != author_name)
        }),
{
    crate::catalog::lemma_first_with_name(authors, author_name);
    if first_with_name(authors, author_name) is Some {
        let k = choose|i: int|
            0 <= i < authors.len() && first_with_name(authors, author_name) == Some(
                #[trigger] authors[i],
            ) && authors[i].name == author_name && (forall|j: int|
                0 <= j < i ==> authors[j].name != author_name);
        assert(authors[k].name == author_name);
    }
}

fn submission(draft: Book, author_name: &String, authors: &Vec<Author>) -> (s: BookSubmission)
    ensures
        s@ == submission_of(draft@, author_name@, authors_view(authors@)),
{
    let picked = find_author_by_name(authors, author_name);
    match picked {
        Some(author) => {
            assert(opt_author_view(Some(author)) == Some(author@));
            BookSubmission::KnownAuthor(draft.with_author(author.id))
        },
        None => BookSubmission::NewAuthor {
            book: draft.with_author(0),
            author_name: author_name.clone(),
        },
    }
}

/// The submission of the form that adds a book: a new book has neither
/// picture nor description.
pub fn plan_new_book(isbn: String, title: String, author_name: &String, authors: &Vec<Author>) -> (s:
    BookSubmission)
    ensures
        s@ == submission_of(
            BookView { isbn: isbn@, title: title@, author_id: 0, image: None, description: None },
            author_name@,
            authors_view(authors@),
        ),
        submitted_book(s@).isbn == isbn@,
        submitted_book(s@).title == title@,
        submitted_book(s@).image is None,
        submitted_book(s@).description is None,
{
    let draft = Book { isbn, title, author_id: 0, image: None, description: None };
    submission(draft, author_name, authors)
}

/// The submission of the form that edits a book: the description is taken
/// from its field as [`description_of`] says, the picture is kept as given.
pub fn plan_book_edit(
    isbn: String,
    title: String,
    description_text: String,
    image: Option<Vec<u8>>,
    author_name: &String,
    authors: &Vec<Author>,
) -> (s: BookSubmission)
    ensures
        s@ == submission_of(
            BookView {
                isbn: isbn@,
                title: title@,
                author_id: 0,
                image: crate::model::opt_bytes_view(image),
                description: description_of(description_text@),
            },
            author_name@,
            authors_view(authors@),
        ),
        submitted_book(s@).isbn == isbn@,
        submitted_book(s@).title == title@,
        submitted_book(s@).image == crate::model::opt_bytes_view(image),
        submitted_book(s@).description == description_of(description_text@),
{
    let description = description_from_input(description_text);
    let draft = Book { isbn, title, author_id: 0, image, description };
    submission(draft, author_name, authors)
}

/// The fewest bytes, once trimmed, that a feedback text must have.
pub const FEEDBACK_MIN_BYTES: usize = 10;

/// The rating that a feedback form starts with and returns to.
pub const FEEDBACK_DEFAULT_RATING: u8 = 10;

/// The state of the feedback form: the text typed so far, the rating, and
/// the message shown under the form.
#[derive(Clone, Debug)]
pub struct FeedbackForm {
    pub text: String,
    pub rating: u8,
    pub message: Option<String>,
}

/// The mathematical value of a [`FeedbackForm`].
pub struct FeedbackView {
    pub text: Seq<char>,
    pub rating: u8,
    pub message: Option<Seq<char>>,
}

impl View for FeedbackForm {
    type V = FeedbackView;

    open spec fn view(&self) -> FeedbackView {
        FeedbackView {
            text: self.text@,
            rating: self.rating,
            message: crate::model::opt_string_view(self.message),
        }
    }
}

/// What a submit of the feedback form did.
#[derive(Clone, Debug)]
pub enum SubmitOutcome {
    /// The text was too short; the form shows why.
    Rejected,
    /// The text was accepted and is to be logged; the form was emptied.
    Accepted { logged: String },
}

/// The message shown when the feedback text is too short.
pub open spec fn too_short_message() -> Seq<char> {
    "Text must be at least 10 characters"@
}

/// Whether a submit of a form in state `f` is accepted.
pub open spec fn feedback_accepted(f: FeedbackView) -> bool {
    utf8_len(trimmed(f.text)) >= FEEDBACK_MIN_BYTES
}

/// The state of the form after a submit in state `f`.
pub open spec fn after_submit(f: FeedbackView) -> FeedbackView {
    if feedback_accepted(f) {
        FeedbackView { text: Seq::empty(), rating: FEEDBACK_DEFAULT_RATING, message: f.message }
    } else {
        FeedbackView { message: Some(too_short_message()), ..f }
    }
}

/// The state of the form after `value` was typed in state `f`.
pub open spec fn after_input(f: FeedbackView, value: Seq<char>) -> FeedbackView {
    FeedbackView { text: value, message: None, ..f }
}

impl FeedbackForm {
    /// An empty form with the default rating and no message.
    pub fn new() -> (f: FeedbackForm)
        ensures
            f@ == (FeedbackView { text: Seq::empty(), rating: FEEDBACK_DEFAULT_RATING, message: None }),
    {
        FeedbackForm { text: String::new(), rating: FEEDBACK_DEFAULT_RATING, message: None }
    }

    /// The text field now reads `value`; any message is withdrawn.
    pub fn on_input(&mut self, value: String)
        ensures
            final(self)@ == after_input(old(self)@, value@),
    {
        self.message = None;
        self.text = value;
    }

    /// The form is submitted.
    pub fn on_submit(&mut self) -> (outcome: SubmitOutcome)
        ensures
            final(self)@ == after_submit(old(self)@),
            outcome matches SubmitOutcome::Accepted { logged } ==> feedback_accepted(old(self)@)
                && logged@ == old(self)@.text,
            outcome is Rejected ==> !feedback_accepted(old(self)@),
    {
        let n = trimmed_byte_len(self.text.as_str());
        if n < FEEDBACK_MIN_BYTES {
            self.message = Some("Text must be at least 10 characters".to_owned());
            return SubmitOutcome::Rejected;
        }
        let logged = self.text.clone();
        self.text = String::new();
        self.rating = FEEDBACK_DEFAULT_RATING;
        SubmitOutcome::Accepted { logged }
    }
}

/// A submit is accepted exactly when the text, trimmed of white space at
/// both ends, takes at least ten bytes in UTF-8; a refused submit shows the
/// message "Text must be at least 10 characters"; the rating returns to 10.
pub proof fn law_feedback_rule(f: FeedbackView)
    ensures
        feedback_accepted(f) <==> utf8_len(trimmed(f.text)) >= 10,
        !feedback_accepted(f) ==> after_submit(f).message == Some(
            "Text must be at least 10 characters"@,
        ),
        feedback_accepted(f) ==> after_submit(f).rating == 10,
        FEEDBACK_DEFAULT_RATING == 10,
{
}

/// Once a submit is accepted the form is empty, so a second submit with
/// nothing typed in between is refused, and leaves the form's text empty.
pub proof fn lemma_accepted_submit_empties_form(f: FeedbackView)
    requires
        feedback_accepted(f),
    ensures
        after_submit(f).text.len() == 0,
        after_submit(f).rating == FEEDBACK_DEFAULT_RATING,
        !feedback_accepted(after_submit(f)),
        after_submit(after_submit(f)).message == Some(too_short_message()),
{
    let e = after_submit(f).text;
    assert(trimmed(e) == e);
    assert(utf8_len(e) == 0);
}

/// A refused submit leaves the text as it was, so submitting again is
/// refused again and changes nothing more.
pub proof fn lemma_refused_submit_is_stable(f: FeedbackView)
    requires
        !feedback_accepted(f),
    ensures
        after_submit(f).text == f.text,
        after_submit(f).rating == f.rating,
        after_submit(after_submit(f)) == after_submit(f),
{
}

/// Typing withdraws the message and keeps the rating, whatever came before.
pub proof fn lemma_input_withdraws_message(f: FeedbackView, value: Seq<char>)
    ensures
        after_input(f, value).message is None,
        after_input(f, value).rating == f.rating,
        after_input(after_submit(f), value).text == value,
{
}

/// One event of the feedback form, as a mathematical value: text typed
/// into the field, or a submit.
pub enum FeedbackStep {
    Input(Seq<char>),
    Submit,
}

/// The state of the form after event `e` in state `f`.
pub open spec fn feedback_apply(f: FeedbackView, e: FeedbackStep) -> FeedbackView {
    match e {
        FeedbackStep::Input(v) => after_input(f, v),
        FeedbackStep::Submit => after_submit(f),
    }
}

/// The state of the form after the events `es`, in turn, from state `f`.
pub open spec fn feedback_run(f: FeedbackView, es: Seq<FeedbackStep>) -> FeedbackView
    decreases es.len(),
{
    if es.len() == 0 {
        f
    } else {
        feedback_apply(feedback_run(f, es.drop_last()), es.last())
    }
}

/// The form as it first appears.
pub open spec fn feedback_start() -> FeedbackView {
    FeedbackView { text: Seq::empty(), rating: FEEDBACK_DEFAULT_RATING, message: None }
}

/// Whether, among the events `es` from state `f`, some submit was refused
/// and nothing but submits came after it.
pub open spec fn refused_since_last_input(f: FeedbackView, es: Seq<FeedbackStep>) -> bool {
    exists|k: int|
        0 <= k < es.len() && es[k] is Submit && !feedback_accepted(#[trigger] feedback_run(f, es.take(k)))
            && (forall|j: int| k < j < es.len() ==> es[j] is Submit)
}

/// Whatever events reach the feedback form from its start: the rating stays
/// the default; the "too short" message is shown exactly from a refused
/// submit until the next input, and no message is shown otherwise (an
/// accepted submit never sets one); and while it is shown a submit is
/// refused again.
pub proof fn law_feedback_runs(es: Seq<FeedbackStep>)
    ensures
        feedback_run(feedback_start(), es).rating == FEEDBACK_DEFAULT_RATING,
        feedback_run(feedback_start(), es).message == (if refused_since_last_input(feedback_start(), es) {
            Some(too_short_message())
        } else {
            None
        }),
        refused_since_last_input(feedback_start(), es) ==> !feedback_accepted(
            feedback_run(feedback_start(), es),
        ),
    decreases es.len(),
{
    let f0 = feedback_start();
    if es.len() > 0 {
        let n = es.len() - 1;
        let p = es.drop_last();
        law_feedback_runs(p);
        let s = feedback_run(f0, p);
        assert(es.take(n) =~= p);
        assert forall|k: int| 0 <= k < n implies #[trigger] es.take(k) == p.take(k) by {
            assert(es.take(k) =~= p.take(k));
        }
        if refused_since_last_input(f0, p) && es.last() is Submit {
            let k = choose|k: int|
                0 <= k < p.len() && p[k] is Submit && !feedback_accepted(
                    #[trigger] feedback_run(f0, p.take(k)),
                ) && (forall|j: int| k < j < p.len() ==> p[j] is Submit);
            assert(es.take(k) == p.take(k));
            assert(es[k] == p[k]);
            assert(forall|j: int| k < j < es.len() ==> es[j] is Submit) by {
                assert forall|j: int| k < j < es.len() implies es[j] is Submit by {
                    if j < n {
                        assert(es[j] == p[j]);
                    }
                }
            }
            assert(refused_since_last_input(f0, es));
        }
        if refused_since_last_input(f0, es) {
            let k = choose|k: int|
                0 <= k < es.len() && es[k] is Submit && !feedback_accepted(
                    #[trigger] feedback_run(f0, es.take(k)),
                ) && (forall|j: int| k < j < es.len() ==> es[j] is Submit);
            assert(es.last() is Submit) by {
                if k < n {
                    assert(es[n] is Submit);
                }
            }
            if k < n {
                assert(es.take(k) == p.take(k));
                assert(p[k] == es[k]);
                assert forall|j: int| k < j < p.len() implies p[j] is Submit by {
                    assert(p[j] == es[j]);
                }
                assert(refused_since_last_input(f0, p));
            } else {
                assert(!feedback_accepted(s));
            }
            assert(!feedback_accepted(s));
        } else if es.last() is Submit && !feedback_accepted(s) {
            assert(es.take(n) == p);
            assert(refused_since_last_input(f0, es));
        }
        match es.last() {
            FeedbackStep::Input(v) => {},
            FeedbackStep::Submit => {
                if feedback_accepted(s) {
                    assert(!refused_since_last_input(f0, p));
                }
            },
        }
    } else {
        assert(!refused_since_last_input(f0, es));
    }
}

} // verus!
