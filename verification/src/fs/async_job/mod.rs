//! Long file operations run on another thread: what they are, and the
//! parts of them that decide.
pub mod checkpoint;
pub mod destination;
pub mod plan;
pub mod zip_create;

use vstd::prelude::*;
use crate::fs::file::VFile;

verus! {

/// A long file operation. It reports its phase and counts as it goes and
/// stops at the next file when its cancel token is set.
#[derive(Debug)]
pub enum FileJob {
    /// Unpack the archive `file` into the directory `dest`.
    ZipExtract { file: VFile, dest: String },
    /// Copy `files` to `dest` (see `destination`).
    Copy { files: Vec<VFile>, dest: String },
    /// Move `files` to `dest`.
    Move { files: Vec<VFile>, dest: String },
    /// Pack `files` into the archive `name` in `dir`.
    ZipCreate { dir: VFile, name: String, files: Vec<VFile> },
    /// Delete `files`.
    Delete { files: Vec<VFile> },
}

} // verus!
