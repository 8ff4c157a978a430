//! Resource handling for articles and their nested comments.
//!
//! The crate is the part of an article service that decides: which data
//! access a request needs, in which order, and what the client is told. It
//! touches neither network nor database. A server feeds it requests and the
//! answers of its data store, and sends out what it returns.
//!
//! - `model`: the rows, the forms and the payloads.
//! - `query`: the operations a handler can ask of the data store, and the
//!   store's answers.
//! - `handler`: the handlers, one per route, as steps from an answer to the
//!   next query or to the response.
//! - `error`: the two kinds of failure and their rendering.
//! - `repository`, `state`: the two tables kept in memory, with the behaviour
//!   the handlers assume of a store.
//! - `service`: what every request returns and leaves behind, and the proof
//!   that the handlers run against the tables do just that.
//! - `laws`: what follows for every request and every store.
//! - `monitor`: the event that reports a server fault.
//! - `middleware`: the request tracer.

pub mod error;
pub mod handler;
pub mod laws;
pub mod middleware;
pub mod model;
pub mod monitor;
pub mod query;
pub mod repository;
pub mod service;
pub mod state;
