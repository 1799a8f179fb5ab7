//! A text file as the preview panel shows it: its first lines, or why it
//! cannot be shown.
use vstd::prelude::*;
use crate::text::{decimal, owned, push_decimal, push_str};

verus! {

/// At most this many lines are shown.
pub const MAX_PREVIEW_LINES: usize = 10_000;

/// Larger files are not previewed.
pub const MAX_FILE_SIZE: u64 = 104_857_600;

/// How many leading bytes decide whether a file is text.
pub const TEXT_DETECT_BUF_SIZE: usize = 8192;

pub struct TextPreview {
    pub lines: Vec<String>,
    pub truncated: bool,
}

/// The error for a file over the size limit, in whole MB.
pub open spec fn too_large_message(size: nat) -> Seq<char> {
    "File too large ("@ + decimal(size / 1024 / 1024) + "MB)"@
}

pub open spec fn not_text_message() -> Seq<char> {
    "Preview is not supported for this file type"@
}

impl TextPreview {
    /// The preview of a file of `file_size` bytes whose first bytes are
    /// `head` and whose lines, read until the limit was reached, are
    /// `lines`: an error for a file over the size limit or one with a zero
    /// byte in its head; otherwise at most the limit of lines, marked
    /// truncated when the limit was reached.
    pub fn from_parts(file_size: u64, head: &[u8], lines: Vec<String>) -> (r: Result<TextPreview, String>)
        ensures
            file_size > MAX_FILE_SIZE ==> (r matches Err(e) && e@ == too_large_message(file_size as nat)),
            file_size <= MAX_FILE_SIZE && !crate::fs::file_info::looks_like_text(head@) ==> (r matches Err(e) && e@ == not_text_message()),
            file_size <= MAX_FILE_SIZE && crate::fs::file_info::looks_like_text(head@) ==> (r matches Ok(p)
                && p.truncated == (lines@.len() >= MAX_PREVIEW_LINES)
                && p.lines@ == if lines@.len() > MAX_PREVIEW_LINES { lines@.subrange(0, MAX_PREVIEW_LINES as int) } else { lines@ }),
    {
        if file_size > MAX_FILE_SIZE {
            let mut e = owned("File too large (");
            push_decimal(&mut e, file_size / 1024 / 1024);
            push_str(&mut e, "MB)");
            return Err(e);
        }
        if !crate::fs::file_info::is_text_head(head) {
            return Err(owned("Preview is not supported for this file type"));
        }
        let truncated = lines.len() >= MAX_PREVIEW_LINES;
        let mut lines = lines;
        if lines.len() > MAX_PREVIEW_LINES {
            lines.truncate(MAX_PREVIEW_LINES);
        }
        Ok(TextPreview { lines, truncated })
    }
}

} // verus!
