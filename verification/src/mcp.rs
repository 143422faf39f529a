//! The request and response protocol and the server that speaks it.
pub mod catalog;
pub mod handlers;
pub mod protocol;
pub mod server;
pub mod tools;
