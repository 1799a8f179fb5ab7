//! The image preview panel: whether an image may be shown, and its keys.
//! Decoding and drawing the image are the caller's.
use vstd::prelude::*;
use crate::component::Action;
use crate::fs::file_info::{blob_dimensions, image_dimensions};
use crate::key::Key;
use crate::text::{decimal, owned, push_decimal, push_str};

verus! {

/// Images with more pixels than this are not shown.
pub const MAX_IMAGE_PIXELS: usize = 16_777_216;

/// The error for an image of `w` by `h` pixels that is too large.
pub open spec fn too_large_image_message(w: nat, h: nat) -> Seq<char> {
    "Image too large ("@ + decimal(w) + " x "@ + decimal(h) + " px)"@
}

pub open spec fn image_title(file_name: Seq<char>) -> Seq<char> {
    "Preview - "@ + file_name
}

pub struct ImagePreviewComponent {
    pub title: String,
    /// The terminal only has half blocks to draw with, so the panel says
    /// that the picture is coarse.
    pub is_halfblocks: bool,
}

impl ImagePreviewComponent {
    /// The panel of the image `file_name` whose first bytes are `head`: an
    /// error when its header gives more than `MAX_IMAGE_PIXELS` pixels (an
    /// unreadable header does not stop it).
    pub fn new(file_name: &str, head: &[u8], is_halfblocks: bool) -> (r: Result<ImagePreviewComponent, String>)
        ensures
            match image_dimensions(head@) {
                Some((w, h)) => if w * h > MAX_IMAGE_PIXELS {
                    r matches Err(e) && e@ == too_large_image_message(w as nat, h as nat)
                } else {
                    r matches Ok(c) && c.title@ == image_title(file_name@) && c.is_halfblocks == is_halfblocks
                },
                None => r matches Ok(c) && c.title@ == image_title(file_name@) && c.is_halfblocks == is_halfblocks,
            },
    {
        match blob_dimensions(head) {
            Some((w, h)) => {
                let too_large = match w.checked_mul(h) {
                    Some(p) => p > MAX_IMAGE_PIXELS,
                    None => true,
                };
                if too_large {
                    let mut e = owned("Image too large (");
                    push_decimal(&mut e, w as u64);
                    push_str(&mut e, " x ");
                    push_decimal(&mut e, h as u64);
                    push_str(&mut e, " px)");
                    return Err(e);
                }
            },
            None => {},
        }
        let mut title = owned("Preview - ");
        push_str(&mut title, file_name);
        Ok(ImagePreviewComponent { title, is_halfblocks })
    }

    pub fn keymap(&self) -> (r: &'static str)
        ensures
            r@ == "n/p: Next/Prev  v/Esc: Close"@,
    {
        "n/p: Next/Prev  v/Esc: Close"
    }

    /// `n` and `p` step to the next and previous file; `v` and Esc close
    /// the panel.
    pub fn handle_event(&self, key: Key) -> (a: Action)
        ensures
            key == Key::Char('n') ==> a is PreviewNext,
            key == Key::Char('p') ==> a is PreviewPrev,
            (key == Key::Char('v') || key == Key::Esc) ==> a is CloseSidePanel,
            !(key == Key::Char('n') || key == Key::Char('p') || key == Key::Char('v') || key == Key::Esc) ==> a is Nothing,
    {
        match key {
            Key::Char('n') => Action::PreviewNext,
            Key::Char('p') => Action::PreviewPrev,
            Key::Char('v') | Key::Esc => Action::CloseSidePanel,
            _ => Action::Nothing,
        }
    }
}

} // verus!
