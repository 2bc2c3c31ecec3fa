//! The editor as an item of a workspace.
pub mod item;
pub mod labels;
pub mod laws;
pub mod paths;
pub mod saving;
pub mod search;
