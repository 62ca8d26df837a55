//! Community, membership and invite records for a small community
//! service, with the decisions its SQLite repositories and HTTP handlers
//! make between one database statement and the next.
//!
//! The database and the web server are driven from outside: every
//! operation that needs several statements is a state machine whose
//! steps name the statement to run next and take the store's answer
//! back as an event.

pub mod store;
pub mod membership;
pub mod community;
pub mod invite;
pub mod handlers;
