//! Compile-time conversion of tagged query templates.
//!
//! A build pass finds template literals that are tagged with the query tag
//! and puts in the place of each the literal tree of its parsed document, so
//! that nothing is parsed when the program runs. This library holds the
//! rules of that pass: which imported name is the tag (`resolver`), which
//! expressions are converted and from what text (`visitor`), and what tree a
//! document becomes (`shape`, `serializer`), with what holds of every such
//! tree (`laws`). The host's own tree and the parser of the query grammar
//! stay outside: the library reads and writes plain data (`document`,
//! `literal`).

pub mod binder;
pub mod config;
pub mod document;
pub mod error;
pub mod kinds;
pub mod laws;
pub mod literal;
pub mod resolver;
pub mod serializer;
pub mod shape;
pub mod text;
pub mod visitor;
