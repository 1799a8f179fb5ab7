//! The application's settings that are fixed at start.
use vstd::prelude::*;

verus! {

/// The application's name, under which its files are kept.
#[derive(Debug, Clone)]
pub struct Config {
    pub app_name: String,
}

impl Default for Config {
    fn default() -> (r: Self)
        ensures
            r.app_name@ == "fv"@,
    {
        Config { app_name: crate::text::owned("fv") }
    }
}

} // verus!
