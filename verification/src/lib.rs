use vstd::prelude::*;

pub mod app;
pub mod app_context;
pub mod clipboard;
pub mod cmd;
pub mod component;
pub mod config;
pub mod fs;
pub mod jobs;
pub mod key;
pub mod path;
pub mod search;
pub mod sort;
pub mod state;
pub mod store;
pub mod text;
pub mod text_output;

verus! {

} // verus!
