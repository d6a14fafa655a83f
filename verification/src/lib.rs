use vstd::prelude::*;

pub mod text;
pub mod strmap;
pub mod engine;
pub mod json;
pub mod casemap;
pub mod clock;
pub mod governance;
pub mod server;
pub mod sdk;
