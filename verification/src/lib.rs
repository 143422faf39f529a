//! PhiSHRI: a local knowledge-retrieval service over a corpus of *doors*,
//! JSON documents that hold context, prerequisites and cross-references,
//! each under a code such as `D05SILENT_INSTALL`.
//!
//! The crate is the logic of the service, verified with Verus. It reads and
//! writes no file and knows no clock but the one it is handed: the program
//! around it reads the files into a [`door::store::Corpus`], hands in one
//! message at a time, makes the changes that it is told to make, and sends
//! the responses.
//!
//! - [`text`]: strings as sequences of characters.
//! - [`json`]: JSON documents as values.
//! - [`config`]: where the knowledge base and the sessions are stored.
//! - [`door`]: the shape of a door, the store with its index and caches,
//!   and the manager of chains, prerequisites, validation, audit,
//!   statistics and creation.
//! - [`mcp`]: the envelope of the protocol, the operations that the server
//!   announces, and the server that routes requests to them.
//!
//! Every function states what it returns over a model of its data: a
//! `String` is modelled by the sequence of its characters, a list by the
//! sequence of the models of its items, a struct by a struct of models.
//! The model of a value `v` is `v.deep_view()`.
pub mod config;
pub mod door;
pub mod json;
pub mod mcp;
pub mod text;
