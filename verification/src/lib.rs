//! Core of a flashcard service: the records it keeps, their wire form, the
//! route table, and the decisions each request handler takes between the
//! outside steps (acquiring a pooled connection, running one statement).

pub mod handlers;
pub mod laws;
pub mod mapper;
pub mod model;
pub mod response;
pub mod router;
pub mod startup;
pub mod text;
pub mod timestamp;
pub mod wire;
