//! Settings and window-shell logic of a multi-model chat desktop client.

pub mod text;
pub mod models;
pub mod history;
pub mod proxy;
pub mod settings;
pub mod shell;
