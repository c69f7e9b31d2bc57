//! Task tracking with owner-scoped tasks, an append-only audit trail and
//! stateless signed tokens.

pub mod credentials;
pub mod ids;
pub mod models;
pub mod service;
pub mod tasks;
pub mod text;
pub mod tracking;
pub mod users;
