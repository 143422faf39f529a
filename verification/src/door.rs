//! Door documents: their shape, the store that loads them, and the manager
//! that works on the graph they form.
pub mod creation;
pub mod loader;
pub mod manager;
pub mod review;
pub mod schema;
pub mod store;
