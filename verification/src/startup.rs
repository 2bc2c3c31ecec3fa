//! How the application starts, and what it leaves behind when it fails.
pub mod arguments;
pub mod laws;
pub mod login_shell;
pub mod panics;
pub mod session;
