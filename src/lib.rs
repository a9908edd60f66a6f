//! In-memory conversation store for a chat-style desktop application.

mod external;
pub mod laws;
pub mod model;
pub mod settings;
pub mod store;
