//! The handle of a file info task running on another thread.
use std::sync::mpsc::Receiver;
use vstd::prelude::*;
use crate::fs::file_info::FileInfo;

verus! {

/// Where the task's one result arrives: the file's info, or why it could
/// not be read.
pub struct FileInfoHandle {
    pub rx: Receiver<Result<FileInfo, String>>,
}

} // verus!
