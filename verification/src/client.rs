//! The connection to the collaboration server: its status, the subscriptions to remote
//! entities, and the routing of the messages that arrive.
pub mod connection;
pub mod laws;
pub mod link;
pub mod models;
pub mod requests;
pub mod router;
