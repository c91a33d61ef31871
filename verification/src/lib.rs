//! A client for the repositories of a source-hosting account, without the
//! input and output: the credential store, the four operations on
//! repositories and the menu, each as steps that say what to print, what to
//! ask, what to send and what to store, and that take what came of it.

pub mod api;
pub mod config;
pub mod creating;
pub mod deleting;
pub mod dialogue;
pub mod json;
pub mod listing;
pub mod repository;
pub mod text;
pub mod ui;
pub mod updating;
