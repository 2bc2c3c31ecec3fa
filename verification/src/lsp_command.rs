//! What an editor asks of language servers: the requests, and what is made of the answers.
pub mod actions;
pub mod command;
pub mod command_laws;
pub mod completions;
pub mod highlights;
pub mod hints;
pub mod hover;
pub mod laws;
pub mod locations;
pub mod protocol;
