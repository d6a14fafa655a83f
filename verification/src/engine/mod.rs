//! The workflow execution engine.
pub mod model;
pub mod run;
pub mod laws;
pub mod ollama;
