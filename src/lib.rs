//! Durable per-key session state shared through one file, and the protocol
//! types of a tool server that keeps its state there.
//!
//! `session` holds the session store's in-memory engine, `watch` the decision
//! that the file watcher makes on each notification, and `laws` the
//! properties that the two keep together.

pub mod laws;
pub mod schema;
pub mod session;
pub mod text;
pub mod traits;
pub mod types;
pub mod watch;
