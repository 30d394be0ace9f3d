//! Request handling and storage rules of a small chat service.
//!
//! A request is bound to one statement (`binding`, `statement`), the
//! statement runs on the tables (`tables` says what it does, `store` does it
//! in memory), and what came back is turned into the envelope that the
//! caller gets (`response`, `envelope`). `handlers` puts the three steps
//! together for each operation, `laws` states what holds across operations,
//! and `routes` names the path of each.

pub mod binding;
pub mod envelope;
pub mod handlers;
pub mod laws;
pub mod outcome;
pub mod records;
pub mod requests;
pub mod response;
pub mod routes;
pub mod seq_facts;
pub mod statement;
pub mod store;
pub mod tables;
pub mod texts;
