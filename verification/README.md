# book_library

A small book catalogue: a server that stores books and authors in MySQL and
a browser front end that lists, adds and edits them. The logic of both is a
Verus-verified library (`src/`); `app/` holds the program around it.

- `src/model.rs` – books and authors and their mathematical views.
- `src/catalog.rs` – looking authors up by id or by name.
- `src/text.rs` – white space, trimming, UTF-8 lengths, decimal notation.
- `src/api.rs` – the calls the browser sends to the server.
- `src/forms.rs` – what the book forms and the feedback form do with input.
- `src/flows.rs` – the flow for a book with a new author: create the author,
  fetch its id, send the book with it.
- `src/page.rs` – the state the pages keep between events.
- `src/isbn.rs` – the ISBN check, with the `regex` crate.
- `src/cover.rs` – cover pictures as Base64 data URLs, with the `base64` crate.
- `src/server.rs` – the server's request handlers as state machines, their
  SQL, and the laws that every request gets exactly one reply and that each
  route succeeds exactly when all of its steps do.
- `app/` – the actix-web/sqlx server loop and the yew pages (built for
  WebAssembly), which perform the I/O that the library asks for.
- `tests/` – tests on concrete values.
