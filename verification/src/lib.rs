//! Verified core of a small book-catalogue web application: the records
//! that travel between the browser and the server, the rules that the
//! forms apply before a record is sent, the addresses of the server's
//! endpoints, and the request handlers of the server as state machines.

pub mod model;
pub mod catalog;
pub mod text;
pub mod api;
pub mod isbn;
pub mod cover;
pub mod forms;
pub mod page;
pub mod server;
pub mod flows;
