//! Core of a small social media server: the data model, the rules that
//! requests are held to, and one state machine per request handler that
//! decides, step by step, what to ask of the database and what to answer.
//! The database, the HTTP layer and the file system live outside this crate;
//! they run the actions that the machines emit and hand back the results.

pub mod error;
pub mod text;
pub mod bindings;
pub mod models;
pub mod api;
pub mod flow;
pub mod session;
pub mod login;
pub mod create_account;
pub mod pages;
pub mod render;
pub mod admin;
pub mod db;
