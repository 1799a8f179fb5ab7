//! A scrollable block of text lines (help, previews, file info).
use vstd::prelude::*;
use crate::key::Key;

verus! {

/// Lines of text and the index of the first visible line.
pub struct TextOutputState {
    pub lines: Vec<String>,
    pub scroll: usize,
}

/// The scroll position a key moves to, or `None` for a key that is not a
/// scroll key: `Up`/`Down` by one line within `0..len`, `Left` to the top,
/// `Right` to the last line.
pub open spec fn scrolled(scroll: nat, len: nat, key: Key) -> Option<nat> {
    match key {
        Key::Up => Some(if scroll > 0 { (scroll - 1) as nat } else { 0 }),
        Key::Down => Some(if scroll + 1 < len { scroll + 1 } else { scroll }),
        Key::Left => Some(0),
        Key::Right => Some(if len > 0 { (len - 1) as nat } else { 0 }),
        _ => None,
    }
}

impl TextOutputState {
    pub fn with_lines(lines: Vec<String>) -> (r: Self)
        ensures
            r.lines@ == lines@,
            r.scroll == 0,
    {
        TextOutputState { lines, scroll: 0 }
    }

    /// Applies a scroll key; `false` (and no change) for any other key.
    pub fn handle_scroll_key(&mut self, key: Key) -> (handled: bool)
        ensures
            final(self).lines@ == old(self).lines@,
            handled == scrolled(old(self).scroll as nat, old(self).lines@.len(), key) is Some,
            handled ==> final(self).scroll == scrolled(old(self).scroll as nat, old(self).lines@.len(), key)->Some_0,
            !handled ==> final(self).scroll == old(self).scroll,
    {
        let len = self.lines.len();
        match key {
            Key::Up => {
                if self.scroll > 0 {
                    self.scroll = self.scroll - 1;
                }
                true
            },
            Key::Down => {
                if len > 0 && self.scroll < len - 1 {
                    self.scroll = self.scroll + 1;
                }
                true
            },
            Key::Left => {
                self.scroll = 0;
                true
            },
            Key::Right => {
                self.scroll = if len > 0 { len - 1 } else { 0 };
                true
            },
            _ => false,
        }
    }
}

impl TextOutputState {
    pub fn scroll_up(&mut self)
        ensures
            final(self).lines@ == old(self).lines@,
            final(self).scroll == scrolled(old(self).scroll as nat, old(self).lines@.len(), Key::Up)->Some_0,
    {
        self.handle_scroll_key(Key::Up);
    }

    pub fn scroll_down(&mut self)
        ensures
            final(self).lines@ == old(self).lines@,
            final(self).scroll == scrolled(old(self).scroll as nat, old(self).lines@.len(), Key::Down)->Some_0,
    {
        self.handle_scroll_key(Key::Down);
    }

    pub fn scroll_to_top(&mut self)
        ensures
            final(self).lines@ == old(self).lines@,
            final(self).scroll == 0,
    {
        self.handle_scroll_key(Key::Left);
    }

    pub fn scroll_to_bottom(&mut self)
        ensures
            final(self).lines@ == old(self).lines@,
            final(self).scroll == scrolled(old(self).scroll as nat, old(self).lines@.len(), Key::Right)->Some_0,
    {
        self.handle_scroll_key(Key::Right);
    }
}

} // verus!
