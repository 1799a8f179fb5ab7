//! The audio player panel: what its keys ask of the player and the time it
//! shows. Playing the sound is the caller's.
use vstd::prelude::*;
use crate::component::Action;
use crate::fs::file_info::{format_duration, spec_duration};
use crate::key::Key;
use crate::text::{owned, push_char, push_str};

verus! {

/// A seek moves this many milliseconds.
pub const SEEK_MS: u64 = 5000;

/// What the player is to do after a key.
#[derive(Debug, Clone, Copy, PartialEq, Eq, Structural)]
pub enum AudioCommand {
    Nothing,
    /// Pause when playing, play when paused.
    TogglePlayPause,
    /// Go to this position, in milliseconds.
    SeekTo(u64),
}

/// Where a forward seek from `pos` lands: `SEEK_MS` later, but not past
/// the end when the length is known.
pub open spec fn forward_target(pos: nat, duration: Option<u64>) -> nat {
    let t: nat = pos + SEEK_MS as nat;
    match duration {
        Some(d) => if t > d { d as nat } else { t },
        None => t,
    }
}

/// Where a backward seek from `pos` lands: `SEEK_MS` earlier, but not
/// before the start.
pub open spec fn backward_target(pos: nat) -> nat {
    if pos >= SEEK_MS { (pos - SEEK_MS) as nat } else { 0 }
}

/// Seeking moves by five seconds: back from 5000 ms or later lands exactly
/// 5000 ms earlier, back from earlier lands at the start; forward lands
/// 5000 ms later unless that passes the known end, where it stops; and a
/// backward seek undoes a forward one that did not reach the end.
pub proof fn lemma_seek_five_seconds(pos: nat, duration: Option<u64>)
    ensures
        pos >= 5000 ==> backward_target(pos) + 5000 == pos,
        pos < 5000 ==> backward_target(pos) == 0,
        backward_target(pos) <= pos,
        duration is None ==> forward_target(pos, duration) == pos + 5000,
        duration matches Some(d) ==> forward_target(pos, duration) == (if pos + 5000 <= d { (pos + 5000) as int } else { d as int }),
        (duration matches Some(d) ==> pos + 5000 <= d) ==> backward_target(forward_target(pos, duration)) == pos,
{
}

pub struct AudioPlayerComponent {
    pub title: String,
    /// The length of the recording in milliseconds, where it is known.
    pub duration_ms: Option<u64>,
    /// The length as shown.
    pub duration_text: Option<String>,
}

impl AudioPlayerComponent {
    /// The panel of the recording `file_name`, `duration_secs` long where
    /// that is known.
    pub fn new(file_name: &str, duration_secs: Option<u64>) -> (r: AudioPlayerComponent)
        requires
            duration_secs matches Some(d) ==> d <= u64::MAX / 1000,
        ensures
            r.title@ == "Audio - "@ + file_name@,
            match duration_secs {
                Some(d) => r.duration_ms == Some((d * 1000) as u64)
                    && (r.duration_text matches Some(t) && t@ == spec_duration(d as nat)),
                None => r.duration_ms is None && r.duration_text is None,
            },
    {
        let mut title = owned("Audio - ");
        push_str(&mut title, file_name);
        match duration_secs {
            Some(d) => AudioPlayerComponent { title, duration_ms: Some(d * 1000), duration_text: Some(format_duration(d)) },
            None => AudioPlayerComponent { title, duration_ms: None, duration_text: None },
        }
    }

    pub fn keymap(&self) -> (r: &'static str)
        ensures
            r@ == "Space: Play/Pause  ←→: Seek  v/Esc: Close"@,
    {
        "Space: Play/Pause  ←→: Seek  v/Esc: Close"
    }

    /// Space plays or pauses; Right and Left seek from `position_ms`; `v`
    /// and Esc close the panel.
    pub fn handle_event(&self, key: Key, position_ms: u64) -> (r: (Action, AudioCommand))
        requires
            position_ms <= u64::MAX - SEEK_MS,
        ensures
            key == Key::Char(' ') ==> r.0 is Nothing && r.1 == AudioCommand::TogglePlayPause,
            key == Key::Right ==> r.0 is Nothing && r.1 == AudioCommand::SeekTo(forward_target(position_ms as nat, self.duration_ms) as u64),
            key == Key::Left ==> r.0 is Nothing && r.1 == AudioCommand::SeekTo(backward_target(position_ms as nat) as u64),
            (key == Key::Char('v') || key == Key::Esc) ==> r.0 is CloseSidePanel && r.1 == AudioCommand::Nothing,
            !(key == Key::Char(' ') || key == Key::Right || key == Key::Left || key == Key::Char('v') || key == Key::Esc)
                ==> r.0 is Nothing && r.1 == AudioCommand::Nothing,
    {
        match key {
            Key::Char(' ') => (Action::Nothing, AudioCommand::TogglePlayPause),
            Key::Right => {
                let t = position_ms + SEEK_MS;
                let target = match self.duration_ms {
                    Some(d) => if t > d { d } else { t },
                    None => t,
                };
                (Action::Nothing, AudioCommand::SeekTo(target))
            },
            Key::Left => {
                let target = if position_ms >= SEEK_MS { position_ms - SEEK_MS } else { 0 };
                (Action::Nothing, AudioCommand::SeekTo(target))
            },
            Key::Char('v') | Key::Esc => (Action::CloseSidePanel, AudioCommand::Nothing),
            _ => (Action::Nothing, AudioCommand::Nothing),
        }
    }

    /// The time shown: the position, and the length after a `/` where it
    /// is known.
    pub fn time_line(&self, position_secs: u64) -> (r: String)
        ensures
            match self.duration_text {
                Some(d) => r@ == spec_duration(position_secs as nat) + seq!['/'] + d@,
                None => r@ == spec_duration(position_secs as nat),
            },
    {
        let mut line = format_duration(position_secs);
        match &self.duration_text {
            Some(d) => {
                push_char(&mut line, '/');
                push_str(&mut line, d.as_str());
            },
            None => {},
        }
        line
    }
}

} // verus!
