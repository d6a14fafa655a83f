//! The decisions of the server: everything it computes between reading a
//! request or the database and answering.
pub mod auth;
pub mod ids;
pub mod runs;
pub mod prompts;
pub mod settings;
pub mod webhook;
pub mod health;
pub mod site;
pub mod audit;
pub mod keys;
pub mod transfer;
