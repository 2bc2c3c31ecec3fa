pub mod client;
pub mod editor;
pub mod image_cache;
pub mod lsp_command;
pub mod open_listener;
pub mod paths;
pub mod startup;
pub mod text;
pub mod ui;
