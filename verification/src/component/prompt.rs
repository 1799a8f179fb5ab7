//! The prompt line: text, path, search, choice and yes/no input, error
//! display, and the progress of a running file job.
use unicode_width::UnicodeWidthChar;
use vstd::prelude::*;
use crate::component::Action;
use crate::jobs::{request_stop, try_receive, AsyncJobHandle, Received};
use crate::key::Key;
use crate::component::completion::{cycle_candidates, cycled, path_completions, spec_path_query, CycleDirection};
use crate::fs::file::VFile;
use crate::state::{spec_is_active, spec_phase_label, FileActionCandidateType, Phase, ProgressMessage, PromptMode, TextAction};
use crate::text::{decimal, owned, push_char, push_decimal, push_str, views};
use crate::app_context::AppContext;
use crate::component::filer::FilerComponent;
use crate::state::FilerContext;
use crate::fs::async_job::FileJob;
use crate::path::{spec_all_normal, spec_join};
use crate::state::{ConfirmAction, FileAction, SelectAction, SortKey, spec_sort_key_at};

verus! {

/// The progress line of a mode: `Copying 3/10 files` when the total is
/// known, `Scanning... 42 files` while it is not; empty for other modes.
pub open spec fn spec_progress_text(m: PromptMode) -> Seq<char> {
    match m {
        PromptMode::Progress { phase, processed, total } => match total {
            Some(t) => spec_phase_label(phase) + seq![' '] + decimal(processed as nat) + seq!['/'] + decimal(t as nat)
                + seq![' ', 'f', 'i', 'l', 'e', 's'],
            None => spec_phase_label(phase) + seq!['.', '.', '.', ' '] + decimal(processed as nat)
                + seq![' ', 'f', 'i', 'l', 'e', 's'],
        },
        _ => Seq::empty(),
    }
}

/// The mode after a progress update: a progress display takes the new counts
/// and phase, except that `Cancelling` stays until the job ends; any other
/// mode becomes a progress display.
pub open spec fn spec_after_update(m: PromptMode, phase: Phase, processed: usize, total: Option<usize>) -> PromptMode {
    match m {
        PromptMode::Progress { phase: cur, .. } => PromptMode::Progress {
            phase: if cur == Phase::Cancelling { Phase::Cancelling } else { phase },
            processed,
            total,
        },
        _ => PromptMode::Progress { phase, processed, total },
    }
}

/// The message shown when a job's channel closes without a final message.
pub open spec fn disconnected_message() -> Seq<char> {
    "Progress channel disconnected unexpectedly"@
}

/// A path prompt's current candidate is one of its candidates.
pub open spec fn mode_wf(m: PromptMode) -> bool {
    m matches PromptMode::File { candidates, candidate_index, .. } ==> crate::component::completion::cycle_wf(candidates@, candidate_index)
}

/// The prompt line and the job it follows.
pub struct PromptComponent {
    pub mode: PromptMode,
    pub handle: Option<AsyncJobHandle>,
    /// The progress line, rewritten only when the progress changes.
    pub progress_buf: String,
}

impl PromptComponent {
    /// The progress line matches the mode, and a path prompt's current
    /// candidate is one of its candidates.
    pub open spec fn wf(&self) -> bool {
        &&& self.progress_buf@ == spec_progress_text(self.mode)
        &&& mode_wf(self.mode)
    }

    pub fn new() -> (r: PromptComponent)
        ensures
            r.mode is Idle,
            r.handle is None,
            r.wf(),
    {
        PromptComponent { mode: PromptMode::Idle, handle: None, progress_buf: String::new() }
    }

    pub fn is_active(&self) -> (r: bool)
        ensures
            r == spec_is_active(self.mode),
    {
        self.mode.is_active()
    }

    /// Rewrites the progress line from the mode.
    pub fn refresh_progress_text(&mut self)
        requires
            mode_wf(old(self).mode),
        ensures
            final(self).mode == old(self).mode,
            final(self).handle == old(self).handle,
            final(self).wf(),
    {
        proof {
            reveal_strlit(" files");
            reveal_strlit("... ");
        }
        let mut buf = String::new();
        match &self.mode {
            PromptMode::Progress { phase, processed, total } => {
                push_str(&mut buf, phase.label());
                match total {
                    Some(t) => {
                        crate::text::push_char(&mut buf, ' ');
                        push_decimal(&mut buf, *processed as u64);
                        crate::text::push_char(&mut buf, '/');
                        push_decimal(&mut buf, *t as u64);
                    },
                    None => {
                        push_str(&mut buf, "... ");
                        push_decimal(&mut buf, *processed as u64);
                    },
                }
                push_str(&mut buf, " files");
            },
            _ => {},
        }
        assert(buf@ =~= spec_progress_text(self.mode));
        self.progress_buf = buf;
    }

    pub fn set_mode(&mut self, mode: PromptMode)
        requires
            mode_wf(mode),
        ensures
            final(self).mode == mode,
            final(self).handle == old(self).handle,
            final(self).wf(),
    {
        self.mode = mode;
        self.refresh_progress_text();
    }

    pub fn set_error(&mut self, message: String)
        ensures
            final(self).mode == (PromptMode::Error { message }),
            final(self).handle == old(self).handle,
            final(self).wf(),
    {
        self.mode = PromptMode::Error { message };
        self.refresh_progress_text();
    }

    /// Follows a newly started job: the progress display at 0 of an unknown
    /// total in its first phase.
    pub fn start_async_job(&mut self, handle: AsyncJobHandle, initial_phase: Phase)
        ensures
            final(self).mode == (PromptMode::Progress { phase: initial_phase, processed: 0, total: None }),
            final(self).handle == Some(handle),
            final(self).wf(),
    {
        self.mode = PromptMode::Progress { phase: initial_phase, processed: 0, total: None };
        self.handle = Some(handle);
        self.refresh_progress_text();
    }

    pub fn is_job_running(&self) -> (r: bool)
        ensures
            r == self.handle is Some,
    {
        self.handle.is_some()
    }

    /// Shows a progress update of the job.
    pub fn apply_progress(&mut self, phase: Phase, processed: usize, total: Option<usize>)
        ensures
            final(self).mode == spec_after_update(old(self).mode, phase, processed, total),
            final(self).handle == old(self).handle,
            final(self).wf(),
    {
        let keep = match &self.mode {
            PromptMode::Progress { phase: cur, .. } => *cur == Phase::Cancelling,
            _ => false,
        };
        let new_phase = if keep { Phase::Cancelling } else { phase };
        self.mode = PromptMode::Progress { phase: new_phase, processed, total };
        self.refresh_progress_text();
    }

    /// Esc during a job: sets the cancel token (the job stops at its next
    /// File-level Checkpoint) and shows `Cancelling`.
    pub fn request_cancel(&mut self)
        requires
            old(self).wf(),
        ensures
            final(self).handle == old(self).handle,
            final(self).wf(),
            old(self).mode matches PromptMode::Progress { processed, total, .. } ==> final(self).mode == (
                PromptMode::Progress { phase: Phase::Cancelling, processed, total }),
            !(old(self).mode is Progress) ==> final(self).mode == old(self).mode,
    {
        match &self.handle {
            Some(h) => request_stop(&h.cancel),
            None => {},
        }
        match &mut self.mode {
            PromptMode::Progress { phase, .. } => {
                *phase = Phase::Cancelling;
            },
            _ => {},
        }
        self.refresh_progress_text();
    }

    /// The job ended: forget it and show `new_mode`.
    pub fn clear_job(&mut self, new_mode: PromptMode)
        requires
            mode_wf(new_mode),
        ensures
            final(self).handle is None,
            final(self).mode == new_mode,
            final(self).wf(),
    {
        self.handle = None;
        self.mode = new_mode;
        self.refresh_progress_text();
    }

    /// What one receive from the job makes of the prompt (see
    /// `handle_received`).
    pub open spec fn job_step(before: Self, received: Received<ProgressMessage>, after: Self) -> bool {
        match received {
            Received::Message(ProgressMessage::Update { phase, processed, total }) => after.mode == spec_after_update(
                before.mode,
                phase,
                processed,
                total,
            ) && after.handle == before.handle,
            Received::Message(ProgressMessage::Complete) => after.handle is None && after.mode is Idle,
            Received::Message(ProgressMessage::Error(text)) => after.handle is None && after.mode == (PromptMode::Error {
                message: text,
            }),
            Received::Empty => after.mode == before.mode && after.handle == before.handle,
            Received::Disconnected => after.handle is None && (after.mode matches PromptMode::Error { message }
                && message@ == disconnected_message()),
        }
    }

    /// After this receive more messages are taken: it was an update.
    pub open spec fn job_goes_on(received: Received<ProgressMessage>) -> bool {
        received matches Received::Message(ProgressMessage::Update { .. })
    }

    /// `after` is `before` with the messages `msgs` taken in, in order, each
    /// but the last an update, through the states `states`.
    pub open spec fn drained_through(before: Self, msgs: Seq<Received<ProgressMessage>>, states: Seq<Self>, after: Self) -> bool {
        &&& states.len() == msgs.len() + 1
        &&& states[0] == before
        &&& states.last() == after
        &&& forall|k: int| 0 <= k < msgs.len() ==> Self::job_step(#[trigger] states[k], msgs[k], states[k + 1])
        &&& forall|k: int| 0 <= k < msgs.len() - 1 ==> Self::job_goes_on(#[trigger] msgs[k])
    }

    /// A receive that keeps the job followed: an update, or nothing yet.
    pub open spec fn keeps_job(received: Received<ProgressMessage>) -> bool {
        Self::job_goes_on(received) || received is Empty
    }

    /// Along the first `k` receives of a drain that started with a job, the
    /// job is still followed exactly when each of them kept it.
    proof fn lemma_job_followed_along(before: Self, msgs: Seq<Received<ProgressMessage>>, states: Seq<Self>, after: Self, k: int)
        requires
            Self::drained_through(before, msgs, states, after),
            before.handle is Some,
            0 <= k <= msgs.len(),
        ensures
            states[k].handle is Some <==> forall|j: int| 0 <= j < k ==> Self::keeps_job(#[trigger] msgs[j]),
            states[k].handle is Some ==> states[k].handle == before.handle,
        decreases k,
    {
        if k > 0 {
            Self::lemma_job_followed_along(before, msgs, states, after, k - 1);
            assert(Self::job_step(states[k - 1], msgs[k - 1], states[k]));
            if states[k].handle is Some {
                assert forall|j: int| 0 <= j < k implies Self::keeps_job(#[trigger] msgs[j]) by {
                    if j == k - 1 {
                        assert(states[k - 1].handle is Some);
                    }
                }
            } else {
                if forall|j: int| 0 <= j < k ==> Self::keeps_job(#[trigger] msgs[j]) {
                    assert(Self::keeps_job(msgs[k - 1]));
                    assert(forall|j: int| 0 <= j < k - 1 ==> Self::keeps_job(#[trigger] msgs[j]));
                }
            }
        }
    }

    /// A job that a tick drains stays running exactly while every receive
    /// it took was an update or found nothing; a final message (success or
    /// failure) or a closed channel ends it. A prompt without a job stays
    /// without one.
    pub proof fn lemma_job_runs_until_it_ends(before: Self, msgs: Seq<Received<ProgressMessage>>, states: Seq<Self>, after: Self)
        requires
            Self::drained_through(before, msgs, states, after),
        ensures
            before.handle is Some ==> (after.handle is Some <==> forall|j: int| 0 <= j < msgs.len() ==> Self::keeps_job(#[trigger] msgs[j])),
            before.handle is Some && after.handle is Some ==> after.handle == before.handle,
            before.handle is None && msgs.len() == 0 ==> after.handle is None,
    {
        if before.handle is Some {
            Self::lemma_job_followed_along(before, msgs, states, after, msgs.len() as int);
        }
    }

    /// What one receive from the job does: an update is shown and more may
    /// follow (`true`); the final message ends the job, with the idle line
    /// for success and the error for a failure; nothing pending leaves all as
    /// it is; a channel closed without a final message ends the job with an
    /// error.
    pub fn handle_received(&mut self, received: Received<ProgressMessage>) -> (more: bool)
        requires
            old(self).wf(),
        ensures
            Self::job_step(*old(self), received, *final(self)),
            more == Self::job_goes_on(received),
            final(self).wf(),
    {
        match received {
            Received::Message(ProgressMessage::Update { phase, processed, total }) => {
                self.apply_progress(phase, processed, total);
                true
            },
            Received::Message(ProgressMessage::Complete) => {
                self.clear_job(PromptMode::Idle);
                false
            },
            Received::Message(ProgressMessage::Error(text)) => {
                self.clear_job(PromptMode::Error { message: text });
                false
            },
            Received::Empty => false,
            Received::Disconnected => {
                self.clear_job(PromptMode::Error { message: owned("Progress channel disconnected unexpectedly") });
                false
            },
        }
    }

    /// What a tick can do to the prompt: without a job, nothing; while the
    /// job runs, only its progress changes; when it ends, the prompt is idle
    /// or shows the job's error.
    pub open spec fn ticked(before: Self, after: Self) -> bool {
        &&& before.handle is None ==> after.mode == before.mode && after.handle is None
        &&& after.handle is Some ==> after.handle == before.handle && (after.mode == before.mode || after.mode is Progress)
        &&& (before.handle is Some && after.handle is None) ==> (after.mode is Idle || after.mode is Error)
        &&& exists|msgs: Seq<Received<ProgressMessage>>, states: Seq<Self>| Self::drained_through(before, msgs, states, after)
            && (before.handle is None ==> msgs.len() == 0)
    }

    /// Takes every message the job has sent so far. Without a job nothing
    /// changes. When the job is still followed afterwards the mode is the
    /// mode before or a progress display; when it ended, the mode is idle or
    /// an error.
    pub fn tick(&mut self)
        requires
            old(self).wf(),
        ensures
            final(self).wf(),
            Self::ticked(*old(self), *final(self)),
    {
        let ghost start_mode = self.mode;
        let ghost start_handle = self.handle;
        let ghost mut msgs: Seq<Received<ProgressMessage>> = Seq::empty();
        let ghost mut states: Seq<Self> = seq![*self];
        let mut budget: usize = usize::MAX;
        while budget > 0
            invariant
                self.wf(),
                start_mode == old(self).mode,
                start_handle == old(self).handle,
                start_handle is None ==> self.mode == start_mode && self.handle is None,
                self.handle is Some ==> self.handle == start_handle && (self.mode == start_mode || self.mode is Progress),
                (start_handle is Some && self.handle is None) ==> (self.mode is Idle || self.mode is Error),
                Self::drained_through(*old(self), msgs, states, *self),
                msgs.len() > 0 ==> Self::job_goes_on(msgs.last()),
                start_handle is None ==> msgs.len() == 0,
            decreases budget,
        {
            let received = match &self.handle {
                Some(h) => try_receive(&h.rx),
                None => {
                    assert(Self::drained_through(*old(self), msgs, states, *self));
                    return;
                },
            };
            let ghost prev_msgs = msgs;
            let ghost prev_states = states;
            let more = self.handle_received(received);
            proof {
                msgs = prev_msgs.push(received);
                states = prev_states.push(*self);
                assert forall|k: int| 0 <= k < msgs.len() implies Self::job_step(#[trigger] states[k], msgs[k], states[k + 1]) by {
                    if k < prev_msgs.len() {
                        assert(states[k] == prev_states[k] && states[k + 1] == prev_states[k + 1] && msgs[k] == prev_msgs[k]);
                    }
                }
                assert forall|k: int| 0 <= k < msgs.len() - 1 implies Self::job_goes_on(#[trigger] msgs[k]) by {
                    if k < prev_msgs.len() - 1 {
                        assert(msgs[k] == prev_msgs[k]);
                    } else {
                        assert(msgs[k] == prev_msgs.last());
                    }
                }
            }
            assert(Self::drained_through(*old(self), msgs, states, *self));
            if !more {
                return;
            }
            budget = budget - 1;
        }
        assert(Self::drained_through(*old(self), msgs, states, *self));
    }

    /// Leaves the prompt; a search returns the cursor position it started
    /// from so that the caller can restore it.
    pub fn cancel(&mut self) -> (r: Option<usize>)
        ensures
            final(self).mode is Idle,
            final(self).handle == old(self).handle,
            old(self).mode matches PromptMode::Search { original_index, .. } ==> r == original_index,
            !(old(self).mode is Search) ==> r is None,
    {
        let original_index = match &self.mode {
            PromptMode::Search { original_index, .. } => *original_index,
            _ => None,
        };
        self.mode = PromptMode::Idle;
        original_index
    }
}

/// The typed value and cursor (in characters) of an input mode.
pub open spec fn input_fields(m: PromptMode) -> Option<(Seq<char>, nat)> {
    match m {
        PromptMode::Text { value, cursor, .. } => Some((value@, cursor as nat)),
        PromptMode::File { value, cursor, .. } => Some((value@, cursor as nat)),
        PromptMode::Search { value, cursor, .. } => Some((value@, cursor as nat)),
        _ => None,
    }
}

/// `b` is `a` with only the typed value and cursor changed (and, for a path
/// prompt, its completion candidates forgotten).
pub open spec fn same_but_input(a: PromptMode, b: PromptMode) -> bool {
    match (a, b) {
        (PromptMode::Text { title: t0, action: a0, .. }, PromptMode::Text { title: t1, action: a1, .. }) => t0 == t1 && a0 == a1,
        (
            PromptMode::File { title: t0, candidate_type: k0, action: a0, .. },
            PromptMode::File { title: t1, candidate_type: k1, candidates, candidate_index, action: a1, .. },
        ) => t0 == t1 && k0 == k1 && a0 == a1 && candidates@.len() == 0 && candidate_index is None,
        (
            PromptMode::Search { title: t0, original_index: o0, .. },
            PromptMode::Search { title: t1, original_index: o1, .. },
        ) => t0 == t1 && o0 == o1,
        _ => false,
    }
}

/// `c` inserted at character position `cursor` (at the end when the cursor
/// is past it).
pub open spec fn insert_at(v: Seq<char>, cursor: nat, c: char) -> Seq<char> {
    let k = if cursor <= v.len() { cursor } else { v.len() };
    v.subrange(0, k as int).push(c) + v.subrange(k as int, v.len() as int)
}

/// The value after Backspace at `cursor`: the character before the cursor
/// removed, if there is one.
pub open spec fn delete_before(v: Seq<char>, cursor: nat) -> Seq<char> {
    if cursor == 0 {
        v
    } else if cursor - 1 < v.len() {
        v.remove(cursor - 1)
    } else {
        v
    }
}

/// Whether the cursor of an input mode can still move right by one.
pub open spec fn cursor_has_room(m: PromptMode) -> bool {
    match input_fields(m) {
        Some((_, c)) => c < usize::MAX,
        None => true,
    }
}

/// Inserts `c` at the cursor and moves the cursor past it.
fn insert_char(value: &mut String, cursor: &mut usize, c: char)
    requires
        *old(cursor) < usize::MAX,
    ensures
        final(value)@ == insert_at(old(value)@, *old(cursor) as nat, c),
        *final(cursor) == *old(cursor) + 1,
{
    let mut v = crate::text::chars_of(value.as_str());
    let k = if *cursor <= v.len() { *cursor } else { v.len() };
    v.insert(k, c);
    assert(v@ =~= insert_at(old(value)@, *old(cursor) as nat, c));
    *value = crate::text::string_of(v.as_slice());
    *cursor = *cursor + 1;
}

/// Backspace: moves the cursor left and removes the character it passes.
fn delete_char(value: &mut String, cursor: &mut usize)
    ensures
        final(value)@ == delete_before(old(value)@, *old(cursor) as nat),
        *final(cursor) == if *old(cursor) > 0 { *old(cursor) - 1 } else { 0 },
{
    if *cursor == 0 {
        return;
    }
    *cursor = *cursor - 1;
    let mut v = crate::text::chars_of(value.as_str());
    if *cursor < v.len() {
        v.remove(*cursor);
        *value = crate::text::string_of(v.as_slice());
    }
}

fn move_left(cursor: &mut usize)
    ensures
        *final(cursor) == if *old(cursor) > 0 { *old(cursor) - 1 } else { 0 },
{
    if *cursor > 0 {
        *cursor = *cursor - 1;
    }
}

fn move_right(value: &String, cursor: &mut usize)
    ensures
        *final(cursor) == if *old(cursor) < value@.len() { *old(cursor) + 1 } else { *old(cursor) as int },
{
    let n = value.as_str().unicode_len();
    if *cursor < n {
        *cursor = *cursor + 1;
    }
}

/// The key handling of a choice prompt: Left and Right move through the
/// options, wrapping around.
pub open spec fn select_left(i: nat, n: nat) -> nat {
    if i > 0 { (i - 1) as nat } else if n > 0 { (n - 1) as nat } else { 0 }
}

pub open spec fn select_right(i: nat, n: nat) -> nat {
    if i + 1 < n { i + 1 } else { 0 }
}

/// On a choice among `n` options, moving right then left (or left then
/// right) comes back to the option `i`.
pub proof fn lemma_select_left_right_inverse(i: nat, n: nat)
    requires
        i < n,
    ensures
        select_left(select_right(i, n), n) == i,
        select_right(select_left(i, n), n) == i,
        select_left(i, n) < n,
        select_right(i, n) < n,
{
}

impl PromptComponent {
    /// The action after the typed value changed: a search follows the value.
    fn after_input_value_changed(&mut self) -> (a: Action)
        ensures
            final(self).progress_buf == old(self).progress_buf,
            mode_wf(old(self).mode) ==> mode_wf(final(self).mode),
            final(self).handle == old(self).handle,
            old(self).mode matches PromptMode::File { title, value, cursor, candidate_type, action, .. }
                ==> (final(self).mode matches PromptMode::File { title: t, value: v, cursor: c, candidate_type: k, candidates, candidate_index, action: act }
                    && t == title && v == value && c == cursor && k == candidate_type && act == action
                    && candidates@.len() == 0 && candidate_index is None),
            !(old(self).mode is File) ==> final(self).mode == old(self).mode,
            old(self).mode matches PromptMode::Search { value, .. } ==> (a matches Action::SearchUpdate(s) && s@ == value@),
            !(old(self).mode is Search) ==> a is Nothing,
    {
        self.mode.reset_candidates();
        match &self.mode {
            PromptMode::Search { value, .. } => Action::SearchUpdate(value.clone()),
            _ => Action::Nothing,
        }
    }

    /// Types `c` at the cursor of an input mode.
    pub fn input_char(&mut self, c: char) -> (a: Action)
        requires
            cursor_has_room(old(self).mode),
        ensures
            old(self).wf() ==> final(self).wf(),
            final(self).progress_buf == old(self).progress_buf,
            final(self).handle == old(self).handle,
            input_fields(old(self).mode) matches Some((v, k)) ==> same_but_input(old(self).mode, final(self).mode)
                && input_fields(final(self).mode) == Some((insert_at(v, k, c), k + 1)),
            input_fields(old(self).mode) is None ==> final(self).mode == old(self).mode && a is Nothing,
            final(self).mode matches PromptMode::Search { value, .. } ==> (a matches Action::SearchUpdate(s) && s@ == value@),
    {
        match &mut self.mode {
            PromptMode::Text { value, cursor, .. } => insert_char(value, cursor, c),
            PromptMode::File { value, cursor, .. } => insert_char(value, cursor, c),
            PromptMode::Search { value, cursor, .. } => insert_char(value, cursor, c),
            _ => {},
        }
        self.after_input_value_changed()
    }

    /// Backspace in an input mode.
    pub fn input_backspace(&mut self) -> (a: Action)
        ensures
            old(self).wf() ==> final(self).wf(),
            final(self).progress_buf == old(self).progress_buf,
            final(self).handle == old(self).handle,
            input_fields(old(self).mode) matches Some((v, k)) ==> same_but_input(old(self).mode, final(self).mode)
                && input_fields(final(self).mode) == Some((delete_before(v, k), if k > 0 { (k - 1) as nat } else { 0nat })),
            input_fields(old(self).mode) is None ==> final(self).mode == old(self).mode && a is Nothing,
            final(self).mode matches PromptMode::Search { value, .. } ==> (a matches Action::SearchUpdate(s) && s@ == value@),
    {
        match &mut self.mode {
            PromptMode::Text { value, cursor, .. } => delete_char(value, cursor),
            PromptMode::File { value, cursor, .. } => delete_char(value, cursor),
            PromptMode::Search { value, cursor, .. } => delete_char(value, cursor),
            _ => {},
        }
        self.after_input_value_changed()
    }

    /// Moves the cursor of an input mode one character left (not past the
    /// start).
    pub fn input_cursor_left(&mut self)
        ensures
            old(self).wf() ==> final(self).wf(),
            final(self).progress_buf == old(self).progress_buf,
            final(self).handle == old(self).handle,
            input_fields(old(self).mode) matches Some((v, k)) ==> input_fields(final(self).mode) == Some((v, if k > 0 { (k - 1) as nat } else { 0nat })),
            input_fields(old(self).mode) is None ==> final(self).mode == old(self).mode,
    {
        match &mut self.mode {
            PromptMode::Text { cursor, .. } => move_left(cursor),
            PromptMode::File { cursor, .. } => move_left(cursor),
            PromptMode::Search { cursor, .. } => move_left(cursor),
            _ => {},
        }
    }

    /// Moves the cursor of an input mode one character right (not past the
    /// end of the value).
    pub fn input_cursor_right(&mut self)
        ensures
            old(self).wf() ==> final(self).wf(),
            final(self).progress_buf == old(self).progress_buf,
            final(self).handle == old(self).handle,
            input_fields(old(self).mode) matches Some((v, k)) ==> input_fields(final(self).mode) == Some((v, if k < v.len() { k + 1 } else { k })),
            input_fields(old(self).mode) is None ==> final(self).mode == old(self).mode,
    {
        match &mut self.mode {
            PromptMode::Text { value, cursor, .. } => move_right(value, cursor),
            PromptMode::File { value, cursor, .. } => move_right(value, cursor),
            PromptMode::Search { value, cursor, .. } => move_right(value, cursor),
            _ => {},
        }
    }

    /// Enter: a search just closes; a shell command becomes a command to run
    /// in its directory; any other mode is handed over to be carried out.
    pub fn input_ok(&mut self) -> (a: Action)
        requires
            !(old(self).mode is Progress),
        ensures
            old(self).wf() ==> final(self).wf(),
            final(self).progress_buf == old(self).progress_buf,
            final(self).mode is Idle,
            final(self).handle == old(self).handle,
            old(self).mode is Search ==> a is Nothing,
            old(self).mode matches PromptMode::Text { value, action, .. } ==> match *action {
                TextAction::Execute { dir } => a matches Action::ExecuteCommand(cmd, d) && cmd@ == value@ && d@ == dir.path@,
                _ => a == Action::ExecutePrompt(Box::new(old(self).mode)),
            },
            !(old(self).mode is Search) && !(old(self).mode is Text) ==> a == Action::ExecutePrompt(Box::new(old(self).mode)),
    {
        if let PromptMode::Search { .. } = &self.mode {
            self.mode = PromptMode::Idle;
            return Action::Nothing;
        }
        let mut input = PromptMode::Idle;
        std::mem::swap(&mut input, &mut self.mode);
        if let PromptMode::Text { value, action, .. } = &input {
            if let TextAction::Execute { dir } = &**action {
                return Action::ExecuteCommand(value.clone(), dir.path.clone());
            }
        }
        Action::ExecutePrompt(Box::new(input))
    }
}

impl PromptComponent {
    /// One Tab (or Shift+Tab) on a path prompt: cycles the completions of
    /// the typed path (see `cycle_candidates`) and puts the cursor at the end.
    pub fn cycle_tab<L: Fn(&str) -> Result<Vec<VFile>, String>>(&mut self, direction: CycleDirection, list: &L) -> (r: Result<Action, String>)
        requires
            old(self).wf(),
            forall|s: &str| call_requires(*list, (s,)),
        ensures
            final(self).wf(),
            final(self).handle == old(self).handle,
            r matches Ok(a) ==> a is Nothing,
            !(old(self).mode is File) ==> final(self).mode == old(self).mode && r matches Ok(Action::Nothing),
            old(self).mode matches PromptMode::File { title, value, cursor, candidate_type, candidates, candidate_index, action }
                ==> final(self).mode is File && final(self).mode->File_title == title
                && final(self).mode->File_candidate_type == candidate_type && final(self).mode->File_action == action
                && cycled(value@, candidates@, candidate_index, direction, final(self).mode->File_value@,
                    final(self).mode->File_candidates@, final(self).mode->File_candidate_index, r is Ok)
                && (r is Ok ==> final(self).mode->File_cursor == final(self).mode->File_value@.len())
                && (r is Err ==> final(self).mode->File_cursor == cursor)
                && (candidates@.len() == 0 && r is Ok ==> path_completions(value@, candidate_type is Directory, *list,
                    views(final(self).mode->File_candidates@)))
                && (candidates@.len() == 0 ==> (spec_path_query(value@) matches Err(e) ==> (r matches Err(m) && m@ == e))),
    {
        match &mut self.mode {
            PromptMode::File { value, cursor, candidate_type, candidates, candidate_index, .. } => {
                let dir_only = match candidate_type {
                    FileActionCandidateType::All => false,
                    FileActionCandidateType::Directory => true,
                };
                match cycle_candidates(value, candidates, candidate_index, direction, dir_only, list) {
                    Ok(()) => {},
                    Err(e) => {
                        return Err(e);
                    },
                }
                *cursor = value.as_str().unicode_len();
            },
            _ => {},
        }
        Ok(Action::Nothing)
    }

    /// What a key does to a text, path or search prompt (see `handle_input_event`).
    pub open spec fn input_key_result(before: Self, key: Key, after: Self, r: Result<Action, String>) -> bool {
        &&& after.wf()
        &&& after.handle == before.handle
        &&& key == Key::Esc ==> after.mode == before.mode && (r matches Ok(Action::CancelPrompt))
        &&& (key == Key::Down && before.mode is Search) ==> after.mode == before.mode
            && (r matches Ok(Action::SearchNext(s)) && s@ == before.mode->Search_value@)
        &&& (key == Key::Up && before.mode is Search) ==> after.mode == before.mode
            && (r matches Ok(Action::SearchPrev(s)) && s@ == before.mode->Search_value@)
    }

    /// Keys of the text, path and search modes: typing, Backspace, cursor
    /// movement, Enter and Esc; Tab/Shift+Tab complete a path; Down/Up move
    /// to the next/previous search match.
    pub fn handle_input_event<L: Fn(&str) -> Result<Vec<VFile>, String>>(&mut self, key: Key, list: &L) -> (r: Result<Action, String>)
        requires
            old(self).wf(),
            !(old(self).mode is Progress),
            cursor_has_room(old(self).mode),
            forall|s: &str| call_requires(*list, (s,)),
        ensures
            Self::input_key_result(*old(self), key, *final(self), r),
    {
        match key {
            Key::Char(c) => return Ok(self.input_char(c)),
            Key::Backspace => return Ok(self.input_backspace()),
            Key::Left => {
                self.input_cursor_left();
                return Ok(Action::Nothing);
            },
            Key::Right => {
                self.input_cursor_right();
                return Ok(Action::Nothing);
            },
            Key::Enter => return Ok(self.input_ok()),
            Key::Esc => return Ok(Action::CancelPrompt),
            _ => {},
        }
        let is_file = match &self.mode {
            PromptMode::File { .. } => true,
            _ => false,
        };
        if is_file && key == Key::Tab {
            return self.cycle_tab(CycleDirection::Forward, list);
        }
        if is_file && key == Key::BackTab {
            return self.cycle_tab(CycleDirection::Backward, list);
        }
        match &self.mode {
            PromptMode::Search { value, .. } => {
                if key == Key::Down {
                    Ok(Action::SearchNext(value.clone()))
                } else if key == Key::Up {
                    Ok(Action::SearchPrev(value.clone()))
                } else {
                    Ok(Action::Nothing)
                }
            },
            _ => Ok(Action::Nothing),
        }
    }

    /// What a key does to a choice prompt (see `handle_select_event`).
    pub open spec fn select_key_result(before: Self, key: Key, after: Self, a: Action) -> bool {
        &&& after.wf()
        &&& after.handle == before.handle
        &&& key == Key::Left ==> a is Nothing && after.mode == (PromptMode::Select {
            title: before.mode->Select_title,
            options: before.mode->Select_options,
            selected_index: select_left(before.mode->Select_selected_index as nat, before.mode->Select_options@.len()) as usize,
            action: before.mode->Select_action,
        })
        &&& key == Key::Right ==> a is Nothing && after.mode == (PromptMode::Select {
            title: before.mode->Select_title,
            options: before.mode->Select_options,
            selected_index: select_right(before.mode->Select_selected_index as nat, before.mode->Select_options@.len()) as usize,
            action: before.mode->Select_action,
        })
        &&& key == Key::Enter ==> after.mode is Idle && a == Action::ExecutePrompt(Box::new(before.mode))
        &&& key == Key::Esc ==> a is CancelPrompt && after.mode == before.mode
        &&& !(key == Key::Left || key == Key::Right || key == Key::Enter || key == Key::Esc) ==> a is Nothing
            && after.mode == before.mode
    }

    /// Keys of a choice prompt: Left/Right move through the options
    /// (wrapping), Enter confirms, Esc cancels.
    pub fn handle_select_event(&mut self, key: Key) -> (a: Action)
        requires
            old(self).wf(),
            old(self).mode is Select,
        ensures
            Self::select_key_result(*old(self), key, *final(self), a),
    {
        match key {
            Key::Left => {
                match &mut self.mode {
                    PromptMode::Select { selected_index, options, .. } => {
                        if *selected_index > 0 {
                            *selected_index = *selected_index - 1;
                        } else if options.len() > 0 {
                            *selected_index = options.len() - 1;
                        } else {
                            *selected_index = 0;
                        }
                    },
                    _ => {},
                }
                Action::Nothing
            },
            Key::Right => {
                match &mut self.mode {
                    PromptMode::Select { selected_index, options, .. } => {
                        if *selected_index < options.len() && options.len() - *selected_index > 1 {
                            *selected_index = *selected_index + 1;
                        } else {
                            *selected_index = 0;
                        }
                    },
                    _ => {},
                }
                Action::Nothing
            },
            Key::Enter => self.input_ok(),
            Key::Esc => Action::CancelPrompt,
            _ => Action::Nothing,
        }
    }

    /// What a key does to a yes/no prompt (see `handle_confirm_event`).
    pub open spec fn confirm_key_result(before: Self, key: Key, after: Self, a: Action) -> bool {
        &&& after.wf()
        &&& after.handle == before.handle
        &&& (key == Key::Char('y') || key == Key::Enter) ==> after.mode is Idle
            && a == Action::ExecutePrompt(Box::new(before.mode))
        &&& (key == Key::Char('n') || key == Key::Esc) ==> a is CancelPrompt && after.mode == before.mode
        &&& !(key == Key::Char('y') || key == Key::Enter || key == Key::Char('n') || key == Key::Esc) ==> a is Nothing
            && after.mode == before.mode
    }

    /// Keys of a yes/no prompt: `y` or Enter confirms, `n` or Esc cancels.
    pub fn handle_confirm_event(&mut self, key: Key) -> (a: Action)
        requires
            old(self).wf(),
            old(self).mode is Confirm,
        ensures
            Self::confirm_key_result(*old(self), key, *final(self), a),
    {
        match key {
            Key::Char('y') | Key::Enter => self.input_ok(),
            Key::Char('n') | Key::Esc => Action::CancelPrompt,
            _ => Action::Nothing,
        }
    }

    /// What a key does to the prompt and what it answers, by mode (see `handle_event`).
    pub open spec fn key_result(before: Self, key: Key, after: Self, r: Result<Action, String>) -> bool {
        &&& after.wf()
        &&& after.handle == before.handle
        &&& before.mode is Idle ==> after.mode is Idle && (r matches Ok(Action::Nothing))
        &&& before.mode is Error ==> (after.mode == before.mode && (r matches Ok(a) && (
            if key == Key::Enter || key == Key::Esc { a is CancelPrompt } else { a is Nothing })))
        &&& before.mode matches PromptMode::Progress { processed, total, .. } ==> ((r matches Ok(Action::Nothing)) && (
            if key == Key::Esc {
                after.mode == (PromptMode::Progress { phase: Phase::Cancelling, processed, total })
            } else {
                after.mode == before.mode
            }))
        &&& (before.mode is Text || before.mode is File || before.mode is Search)
            ==> Self::input_key_result(before, key, after, r)
        &&& before.mode is Select ==> (r matches Ok(a) && Self::select_key_result(before, key, after, a))
        &&& before.mode is Confirm ==> (r matches Ok(a) && Self::confirm_key_result(before, key, after, a))
    }

    /// The prompt's key handling, by mode. While a job runs, only Esc does
    /// something: it asks the job to stop.
    pub fn handle_event<L: Fn(&str) -> Result<Vec<VFile>, String>>(&mut self, key: Key, list: &L) -> (r: Result<Action, String>)
        requires
            old(self).wf(),
            cursor_has_room(old(self).mode),
            forall|s: &str| call_requires(*list, (s,)),
        ensures
            Self::key_result(*old(self), key, *final(self), r),
    {
        let kind: u8 = match &self.mode {
            PromptMode::Text { .. } | PromptMode::File { .. } | PromptMode::Search { .. } => 0,
            PromptMode::Select { .. } => 1,
            PromptMode::Confirm { .. } => 2,
            PromptMode::Error { .. } => 3,
            PromptMode::Progress { .. } => 4,
            PromptMode::Idle => 5,
        };
        if kind == 0 {
            self.handle_input_event(key, list)
        } else if kind == 1 {
            Ok(self.handle_select_event(key))
        } else if kind == 2 {
            Ok(self.handle_confirm_event(key))
        } else if kind == 3 {
            if key == Key::Enter || key == Key::Esc {
                Ok(Action::CancelPrompt)
            } else {
                Ok(Action::Nothing)
            }
        } else if kind == 4 {
            if key == Key::Esc {
                self.request_cancel();
            }
            Ok(Action::Nothing)
        } else {
            Ok(Action::Nothing)
        }
    }
}

/// How the prompt line's frame is drawn.
#[derive(Debug, Clone, Copy, PartialEq, Eq, Structural)]
pub enum PromptFrame {
    Inactive,
    Active,
    Error,
}

/// A choice's options on one line, one space between two: the selected
/// one in brackets, the others between spaces.
pub open spec fn select_line(options: Seq<Seq<char>>, selected: nat) -> Seq<char>
    decreases options.len(),
{
    if options.len() == 0 {
        Seq::empty()
    } else {
        let i = options.len() - 1;
        let sep = if i > 0 { seq![' '] } else { Seq::<char>::empty() };
        let piece = if i == selected {
            seq!['['] + options.last() + seq![']']
        } else {
            seq![' '] + options.last() + seq![' ']
        };
        select_line(options.drop_last(), selected) + sep + piece
    }
}

/// The prompt line as a frame title, a text and a frame: the keymap under
/// `Commands` while idle; the typed value under the prompt's title; the
/// options of a choice; `Yes(y) No(n)` under a question; an error under
/// `Error`; the progress line under `Progress`.
pub open spec fn spec_prompt_view(mode: PromptMode, progress: Seq<char>, keymap: Seq<char>) -> (Seq<char>, Seq<char>, PromptFrame) {
    match mode {
        PromptMode::Idle => ("Commands"@, keymap, PromptFrame::Inactive),
        PromptMode::Text { title, value, .. } => (title@, value@, PromptFrame::Active),
        PromptMode::File { title, value, .. } => (title@, value@, PromptFrame::Active),
        PromptMode::Search { title, value, .. } => (title@, value@, PromptFrame::Active),
        PromptMode::Select { title, options, selected_index, .. } => (title@, select_line(views(options@), selected_index as nat),
            PromptFrame::Active),
        PromptMode::Confirm { title, .. } => (title@, "Yes(y) No(n)"@, PromptFrame::Active),
        PromptMode::Error { message } => ("Error"@, message@, PromptFrame::Error),
        PromptMode::Progress { .. } => ("Progress"@, progress, PromptFrame::Active),
    }
}

/// The options of a choice on one line (see `select_line`).
pub fn select_line_text(options: &Vec<String>, selected: usize) -> (r: String)
    ensures
        r@ == select_line(views(options@), selected as nat),
{
    let mut out = String::new();
    let mut i: usize = 0;
    while i < options.len()
        invariant
            i <= options@.len(),
            out@ == select_line(views(options@).subrange(0, i as int), selected as nat),
        decreases options@.len() - i,
    {
        let ghost before = out@;
        let ghost sub = views(options@).subrange(0, i + 1);
        assert(sub.drop_last() =~= views(options@).subrange(0, i as int));
        assert(sub.last() == options@[i as int]@);
        if i > 0 {
            push_char(&mut out, ' ');
        }
        if i == selected {
            push_char(&mut out, '[');
            push_str(&mut out, options[i].as_str());
            push_char(&mut out, ']');
        } else {
            push_char(&mut out, ' ');
            push_str(&mut out, options[i].as_str());
            push_char(&mut out, ' ');
        }
        assert(out@ =~= select_line(sub, selected as nat));
        i += 1;
    }
    assert(views(options@).subrange(0, options@.len() as int) =~= views(options@));
    out
}

/// The columns a terminal gives a character (`unicode-width`); `None` for
/// a control character.
pub uninterp spec fn char_display_width(c: char) -> Option<usize>;

/// unicode-width's `UnicodeWidthChar::width`: the character's columns from
/// the crate's Unicode tables, a function of the character alone.
#[verifier::external_body]
fn char_width(c: char) -> (r: Option<usize>)
    ensures
        r == char_display_width(c),
{
    c.width()
}

/// The columns the characters `cs` take, a control character taking none.
pub open spec fn width_sum(cs: Seq<char>) -> int
    decreases cs.len(),
{
    if cs.len() == 0 {
        0
    } else {
        width_sum(cs.drop_last()) + match char_display_width(cs.last()) {
            Some(w) => w as int,
            None => 0,
        }
    }
}

/// The column of the prompt's cursor within its text: the columns of the
/// first `cursor` characters of `value` (capped at the largest `usize`).
pub fn cursor_column(value: &str, cursor: usize) -> (r: usize)
    ensures
        r == (if width_sum(value@.take(if cursor < value@.len() { cursor as int } else { value@.len() as int })) < usize::MAX {
            width_sum(value@.take(if cursor < value@.len() { cursor as int } else { value@.len() as int }))
        } else {
            usize::MAX as int
        }),
{
    let cs = crate::text::chars_of(value);
    let n = if cursor < cs.len() { cursor } else { cs.len() };
    let mut total: usize = 0;
    let mut i: usize = 0;
    while i < n
        invariant
            cs@ == value@,
            n <= cs@.len(),
            i <= n,
            total == (if width_sum(cs@.take(i as int)) < usize::MAX { width_sum(cs@.take(i as int)) } else { usize::MAX as int }),
            width_sum(cs@.take(i as int)) >= 0,
        decreases n - i,
    {
        assert(cs@.take(i + 1).drop_last() =~= cs@.take(i as int));
        assert(cs@.take(i + 1).last() == cs@[i as int]);
        let w = match char_width(cs[i]) {
            Some(w) => w,
            None => 0,
        };
        total = total.saturating_add(w);
        i += 1;
    }
    total
}

impl PromptComponent {
    /// What the prompt line shows (see `spec_prompt_view`); `keymap` is
    /// shown while the prompt is idle.
    pub fn prompt_view(&self, keymap: &str) -> (r: (String, String, PromptFrame))
        ensures
            (r.0@, r.1@, r.2) == spec_prompt_view(self.mode, self.progress_buf@, keymap@),
    {
        match &self.mode {
            PromptMode::Idle => (owned("Commands"), owned(keymap), PromptFrame::Inactive),
            PromptMode::Text { title, value, .. } => (title.clone(), value.clone(), PromptFrame::Active),
            PromptMode::File { title, value, .. } => (title.clone(), value.clone(), PromptFrame::Active),
            PromptMode::Search { title, value, .. } => (title.clone(), value.clone(), PromptFrame::Active),
            PromptMode::Select { title, options, selected_index, .. } => (title.clone(), select_line_text(options, *selected_index),
                PromptFrame::Active),
            PromptMode::Confirm { title, .. } => (title.clone(), owned("Yes(y) No(n)"), PromptFrame::Active),
            PromptMode::Error { message } => (owned("Error"), message.clone(), PromptFrame::Error),
            PromptMode::Progress { .. } => (owned("Progress"), self.progress_buf.clone(), PromptFrame::Active),
        }
    }
}

/// Outside work that a confirmed prompt leads to, for the caller to do.
pub enum PromptEffect {
    Nothing,
    /// Create the directory at this path.
    CreateDir(String),
    /// Create an empty file at this path.
    CreateFile(String),
    /// Create a symbolic link at `link` that points to `target`.
    CreateSymlink { link: String, target: String },
    /// Rename a file.
    Rename { from: String, to: String },
    /// Create the directory `dir` (with its parents), then start `job`,
    /// handing its handle to the prompt with `phase` as its first phase.
    StartJob { prepare_dir: Option<String>, job: FileJob, phase: Phase },
    /// Search the files under `dir` for `pattern` and show what is found in
    /// the grep panel.
    Grep { dir: String, pattern: String },
}

/// The error shown when a job is asked for while another runs.
pub open spec fn job_running_message() -> Seq<char> {
    "Another async job is already running"@
}

/// A job to start, unless one is running: then the prompt shows an error
/// and nothing starts.
fn start_file_job(ctx: &mut AppContext, prepare_dir: Option<String>, job: FileJob, phase: Phase) -> (r: PromptEffect)
    requires
        old(ctx).wf(),
    ensures
        final(ctx).wf(),
        final(ctx).contexts == old(ctx).contexts,
        final(ctx).active == old(ctx).active,
        final(ctx).side_panel == old(ctx).side_panel,
        old(ctx).prompt.handle is Some ==> (r is Nothing && (final(ctx).prompt.mode matches PromptMode::Error { message }
            && message@ == job_running_message())),
        old(ctx).prompt.handle is None ==> r == (PromptEffect::StartJob { prepare_dir, job, phase }) && final(ctx).prompt == old(ctx).prompt,
{
    if ctx.prompt.is_job_running() {
        ctx.prompt.set_error(owned("Another async job is already running"));
        return PromptEffect::Nothing;
    }
    PromptEffect::StartJob { prepare_dir, job, phase }
}

/// One call of `is_dir` on `path` answered `answer`.
pub open spec fn said<D: Fn(&str) -> bool>(is_dir: D, path: Seq<char>, answer: bool) -> bool {
    exists|s: &str| s@ == path && #[trigger] call_ensures(is_dir, (s,), answer)
}

/// `value` names something inside a directory: not empty, and every part
/// an ordinary name.
pub open spec fn is_plain_name(value: Seq<char>) -> bool {
    value.len() > 0 && spec_all_normal(value)
}

/// What carrying out the confirmed prompt `input` did: the result `r` and
/// the application `before` and `after` (see `execute_prompt_action`).
pub open spec fn prompt_executed<D: Fn(&str) -> bool>(before: AppContext, input: PromptMode, is_dir: D, r: Result<PromptEffect, String>, after: AppContext) -> bool {
    &&& (r is Ok && !(input matches PromptMode::Select { action: SelectAction::Sort, .. })
            ==> after.contexts@[after.active as int].filer.state.checked_paths@.len() == 0)
    &&& (input matches PromptMode::Text { action, value, .. } ==> match *action {
            TextAction::Mkdir { dir } => match crate::fs::file::spec_plan_in_dir(dir.path@, value@, "dir name"@) {
                Ok(Some(p)) => r matches Ok(PromptEffect::CreateDir(q)) && q@ == p,
                Ok(None) => r matches Ok(PromptEffect::Nothing),
                Err(m) => r matches Err(e) && e@ == m,
            },
            TextAction::Touch { dir } => match crate::fs::file::spec_plan_in_dir(dir.path@, value@, "file name"@) {
                Ok(Some(p)) => r matches Ok(PromptEffect::CreateFile(q)) && q@ == p,
                Ok(None) => r matches Ok(PromptEffect::Nothing),
                Err(m) => r matches Err(e) && e@ == m,
            },
            TextAction::Symlink { dir, target } => match crate::fs::file::spec_plan_in_dir(dir.path@, value@, "link name"@) {
                Ok(Some(p)) => r matches Ok(PromptEffect::CreateSymlink { link, target: t }) && link@ == p && t@ == target.path@,
                Ok(None) => r matches Ok(PromptEffect::Nothing),
                Err(m) => r matches Err(e) && e@ == m,
            },
            TextAction::Rename { file } => match crate::fs::file::spec_plan_rename(file.path@, value@) {
                Ok(Some(p)) => (r matches Ok(PromptEffect::Rename { from, to }) && from@ == file.path@ && to@ == p)
                    && (after.contexts@[after.active as int].filer.state.pending_select_name matches Some(n) && n@ == value@),
                Ok(None) => r matches Ok(PromptEffect::Nothing),
                Err(m) => r matches Err(e) && e@ == m,
            },
            TextAction::Zip { dir, files } => if !is_plain_name(value@) {
                r matches Err(e) && e@ == value@ + ": Invalid zip name"@
            } else {
                before.prompt.handle is None ==> (r matches Ok(PromptEffect::StartJob { prepare_dir: None, job: FileJob::ZipCreate { dir: d, name, files: fs }, phase })
                    && d == dir && name@ == value@ && fs@ == files@ && phase == Phase::Scanning)
            },
            TextAction::Unzip { file, dir } => if !spec_all_normal(value@) {
                r matches Err(e) && e@ == value@ + ": Invalid directory name"@
            } else {
                before.prompt.handle is None ==> (r matches Ok(PromptEffect::StartJob { prepare_dir: Some(p), job: FileJob::ZipExtract { file: f, dest }, phase })
                    && p@ == spec_join(dir.path@, value@) && dest@ == p@ && f == file && phase == Phase::Extracting)
            },
            TextAction::Grep => if value@.len() == 0 {
                r matches Ok(PromptEffect::Nothing)
            } else {
                r matches Ok(PromptEffect::Grep { dir, pattern })
                    && dir@ == before.contexts@[before.active as int].filer.state.current_dir.path@ && pattern@ == value@
            },
            TextAction::Execute { .. } => r matches Ok(PromptEffect::Nothing),
            TextAction::Filter => (r matches Ok(PromptEffect::Nothing))
                && after.contexts@[after.active as int].filer.state.filter@ == value@
                && (after.contexts@[after.active as int].filer.state.load_request matches Some(p)
                    && p@ == before.contexts@[before.active as int].filer.state.current_dir.path@),
        })
    &&& (input matches PromptMode::File { action, value, .. } ==> match action {
            FileAction::Copy { files } => before.prompt.handle is None ==> (r matches Ok(PromptEffect::StartJob { prepare_dir: None, job: FileJob::Copy { files: fs, dest }, phase })
                && fs@ == files@ && dest@ == value@ && phase == Phase::Scanning),
            FileAction::Move { files } => before.prompt.handle is None ==> (r matches Ok(PromptEffect::StartJob { prepare_dir: None, job: FileJob::Move { files: fs, dest }, phase })
                && fs@ == files@ && dest@ == value@ && phase == Phase::Moving),
            FileAction::Jump => (r matches Err(e) ==> said(is_dir, value@, false) && e@ == value@ + " はディレクトリではありません"@)
                && (r is Ok ==> said(is_dir, value@, true) && (r matches Ok(PromptEffect::Nothing))
                    && after.contexts@[after.active as int].filer.state.current_dir.path@ == value@)
        })
    &&& (input matches PromptMode::Confirm { action: ConfirmAction::Delete { files }, .. } ==> (before.prompt.handle is None ==> (
            r matches Ok(PromptEffect::StartJob { prepare_dir: None, job: FileJob::Delete { files: fs }, phase }) && fs@ == files@ && phase == Phase::Scanning)))
    &&& (input matches PromptMode::Select { action: SelectAction::Sort, selected_index, .. } ==> ((r matches Ok(PromptEffect::Nothing)) && match spec_sort_key_at(selected_index as nat) {
            Some(k) => after.contexts@[after.active as int].filer.state.sort_key == k
                && after.contexts@[after.active as int].filer.state.load_request is Some,
            None => after.contexts@ == before.contexts@
        }))
    &&& ((input is Idle || input is Error || input is Search || input is Progress) ==> r matches Ok(PromptEffect::Nothing))
    &&& (input matches PromptMode::Select { action: SelectAction::Sort, .. } ==> after.contexts@[after.active as int].filer.state.checked_paths
            == before.contexts@[before.active as int].filer.state.checked_paths)
    &&& (r is Err ==> after == before)
    &&& ((input is Idle || input is Error || input is Search || input is Progress) ==> after == (AppContext {
            contexts: after.contexts,
            ..before
        }) && after.contexts@ == before.contexts@.update(before.active as int, FilerContext {
            filer: FilerComponent {
                state: before.contexts@[before.active as int].filer.state.with_checked_paths(
                    after.contexts@[before.active as int].filer.state.checked_paths),
                ..before.contexts@[before.active as int].filer
            },
            history: before.contexts@[before.active as int].history,
        }))
    &&& (before.prompt.handle is Some && starts_job(input) ==> (r matches Ok(PromptEffect::Nothing))
            && (after.prompt.mode matches PromptMode::Error { message } && message@ == job_running_message()))
}

/// A confirmed prompt that starts a file job when it is valid: a deletion,
/// copy, move, zip or unzip.
pub open spec fn starts_job(input: PromptMode) -> bool {
    ||| input matches PromptMode::Confirm { action: ConfirmAction::Delete { .. }, .. }
    ||| input matches PromptMode::File { action: FileAction::Copy { .. }, .. }
    ||| input matches PromptMode::File { action: FileAction::Move { .. }, .. }
    ||| input matches PromptMode::Text { action, value, .. } && (*action matches TextAction::Zip { .. }) && is_plain_name(value@)
    ||| input matches PromptMode::Text { action, value, .. } && (*action matches TextAction::Unzip { .. }) && spec_all_normal(value@)
}

/// Carries out a confirmed prompt (the `input` that `input_ok` handed
/// over): a deletion, copy, move, zip or unzip becomes a job; a new
/// directory or file, a rename or a grep becomes outside work for the
/// caller; a jump goes to the typed directory (`is_dir` says whether it is
/// one); a sort choice re-sorts the list. Afterwards the checks are
/// cleared, except after sorting or a refused input.
pub fn execute_prompt_action<D: Fn(&str) -> bool>(ctx: &mut AppContext, input: PromptMode, is_dir: &D) -> (r: Result<PromptEffect, String>)
    requires
        old(ctx).wf(),
        forall|s: &str| call_requires(*is_dir, (s,)),
    ensures
        final(ctx).wf(),
        final(ctx).active == old(ctx).active,
        final(ctx).contexts@.len() == old(ctx).contexts@.len(),
        prompt_executed(*old(ctx), input, *is_dir, r, *final(ctx)),
{
    let skip_clear = match &input {
        PromptMode::Select { action: SelectAction::Sort, .. } => true,
        _ => false,
    };
    let effect = match input {
        PromptMode::Confirm { action, .. } => match action {
            ConfirmAction::Delete { files } => start_file_job(ctx, None, FileJob::Delete { files }, Phase::Scanning),
        },
        PromptMode::Text { action, value, .. } => {
            match execute_text_action(ctx, *action, value.as_str()) {
                Ok(e) => e,
                Err(e) => {
                    return Err(e);
                },
            }
        },
        PromptMode::File { action, value, .. } => match action {
            FileAction::Copy { files } => start_file_job(ctx, None, FileJob::Copy { files, dest: value }, Phase::Scanning),
            FileAction::Move { files } => start_file_job(ctx, None, FileJob::Move { files, dest: value }, Phase::Moving),
            FileAction::Jump => {
                let d = is_dir(value.as_str());
                assert(said(*is_dir, value@, d));
                if !d {
                    let mut e = owned(value.as_str());
                    push_str(&mut e, " はディレクトリではありません");
                    return Err(e);
                }
                ctx.active_filer_mut().change_to(value.as_str());
                PromptEffect::Nothing
            },
        },
        PromptMode::Select { action, selected_index, .. } => match action {
            SelectAction::Sort => {
                match SortKey::at(selected_index) {
                    Some(k) => {
                        let filer = ctx.active_filer_mut();
                        filer.set_sort_key(k);
                        filer.refresh_files();
                    },
                    None => {},
                }
                PromptEffect::Nothing
            },
        },
        _ => PromptEffect::Nothing,
    };
    if !skip_clear {
        ctx.active_filer_mut().clear_checked_paths();
    }
    Ok(effect)
}

fn execute_text_action(ctx: &mut AppContext, action: TextAction, value: &str) -> (r: Result<PromptEffect, String>)
    requires
        old(ctx).wf(),
    ensures
        final(ctx).wf(),
        final(ctx).active == old(ctx).active,
        final(ctx).contexts@.len() == old(ctx).contexts@.len(),
        match action {
            TextAction::Mkdir { dir } => match crate::fs::file::spec_plan_in_dir(dir.path@, value@, "dir name"@) {
                Ok(Some(p)) => r matches Ok(PromptEffect::CreateDir(q)) && q@ == p,
                Ok(None) => r matches Ok(PromptEffect::Nothing),
                Err(m) => r matches Err(e) && e@ == m,
            },
            TextAction::Touch { dir } => match crate::fs::file::spec_plan_in_dir(dir.path@, value@, "file name"@) {
                Ok(Some(p)) => r matches Ok(PromptEffect::CreateFile(q)) && q@ == p,
                Ok(None) => r matches Ok(PromptEffect::Nothing),
                Err(m) => r matches Err(e) && e@ == m,
            },
            TextAction::Symlink { dir, target } => match crate::fs::file::spec_plan_in_dir(dir.path@, value@, "link name"@) {
                Ok(Some(p)) => r matches Ok(PromptEffect::CreateSymlink { link, target: t }) && link@ == p && t@ == target.path@,
                Ok(None) => r matches Ok(PromptEffect::Nothing),
                Err(m) => r matches Err(e) && e@ == m,
            },
            TextAction::Rename { file } => match crate::fs::file::spec_plan_rename(file.path@, value@) {
                Ok(Some(p)) => (r matches Ok(PromptEffect::Rename { from, to }) && from@ == file.path@ && to@ == p)
                    && (final(ctx).contexts@[final(ctx).active as int].filer.state.pending_select_name matches Some(n) && n@ == value@),
                Ok(None) => r matches Ok(PromptEffect::Nothing),
                Err(m) => r matches Err(e) && e@ == m,
            },
            TextAction::Zip { dir, files } => if !is_plain_name(value@) {
                r matches Err(e) && e@ == value@ + ": Invalid zip name"@
            } else {
                (old(ctx).prompt.handle is None ==> (r matches Ok(PromptEffect::StartJob { prepare_dir: None, job: FileJob::ZipCreate { dir: d, name, files: fs }, phase })
                    && d == dir && name@ == value@ && fs@ == files@ && phase == Phase::Scanning))
                && (old(ctx).prompt.handle is Some ==> (r matches Ok(PromptEffect::Nothing))
                    && (final(ctx).prompt.mode matches PromptMode::Error { message } && message@ == job_running_message()))
            },
            TextAction::Unzip { file, dir } => if !spec_all_normal(value@) {
                r matches Err(e) && e@ == value@ + ": Invalid directory name"@
            } else {
                (old(ctx).prompt.handle is None ==> (r matches Ok(PromptEffect::StartJob { prepare_dir: Some(p), job: FileJob::ZipExtract { file: f, dest }, phase })
                    && p@ == spec_join(dir.path@, value@) && dest@ == p@ && f == file && phase == Phase::Extracting))
                && (old(ctx).prompt.handle is Some ==> (r matches Ok(PromptEffect::Nothing))
                    && (final(ctx).prompt.mode matches PromptMode::Error { message } && message@ == job_running_message()))
            },
            TextAction::Grep => if value@.len() == 0 {
                r matches Ok(PromptEffect::Nothing)
            } else {
                r matches Ok(PromptEffect::Grep { dir, pattern })
                    && dir@ == old(ctx).contexts@[old(ctx).active as int].filer.state.current_dir.path@ && pattern@ == value@
            },
            TextAction::Execute { .. } => r matches Ok(PromptEffect::Nothing),
            TextAction::Filter => (r matches Ok(PromptEffect::Nothing))
                && final(ctx).contexts@[final(ctx).active as int].filer.state.filter@ == value@
                && (final(ctx).contexts@[final(ctx).active as int].filer.state.load_request matches Some(p)
                    && p@ == old(ctx).contexts@[old(ctx).active as int].filer.state.current_dir.path@),
        },
        r is Err ==> *final(ctx) == *old(ctx),
        !(action is Rename || action is Zip || action is Unzip || action is Filter) ==> *final(ctx) == *old(ctx),
{
    proof {
        reveal_strlit("dir name");
        reveal_strlit("file name");
        reveal_strlit("link name");
        assert("link name"@ =~= seq!['l', 'i', 'n', 'k', ' ', 'n', 'a', 'm', 'e']);
        assert("dir name"@ =~= seq!['d', 'i', 'r', ' ', 'n', 'a', 'm', 'e']);
        assert("file name"@ =~= seq!['f', 'i', 'l', 'e', ' ', 'n', 'a', 'm', 'e']);
    }
    match action {
        TextAction::Mkdir { dir } => match dir.plan_create_dir(value) {
            Ok(Some(p)) => Ok(PromptEffect::CreateDir(p)),
            Ok(None) => Ok(PromptEffect::Nothing),
            Err(e) => Err(e),
        },
        TextAction::Touch { dir } => match dir.plan_create_file(value) {
            Ok(Some(p)) => Ok(PromptEffect::CreateFile(p)),
            Ok(None) => Ok(PromptEffect::Nothing),
            Err(e) => Err(e),
        },
        TextAction::Symlink { dir, target } => match dir.plan_create_symlink(value) {
            Ok(Some(p)) => Ok(PromptEffect::CreateSymlink { link: p, target: owned(target.absolute_path()) }),
            Ok(None) => Ok(PromptEffect::Nothing),
            Err(e) => Err(e),
        },
        TextAction::Rename { file } => match file.plan_rename(value) {
            Ok(Some(p)) => {
                ctx.active_filer_mut().set_pending_select_name(owned(value));
                Ok(PromptEffect::Rename { from: owned(file.absolute_path()), to: p })
            },
            Ok(None) => Ok(PromptEffect::Nothing),
            Err(e) => Err(e),
        },
        TextAction::Zip { dir, files } => {
            if value.unicode_len() == 0 || !crate::path::all_normal(value) {
                let mut e = owned(value);
                push_str(&mut e, ": Invalid zip name");
                return Err(e);
            }
            Ok(start_file_job(ctx, None, FileJob::ZipCreate { dir, name: owned(value), files }, Phase::Scanning))
        },
        TextAction::Unzip { file, dir } => {
            if !crate::path::all_normal(value) {
                let mut e = owned(value);
                push_str(&mut e, ": Invalid directory name");
                return Err(e);
            }
            let dest = crate::path::join(dir.absolute_path(), value);
            let job_dest = dest.clone();
            Ok(start_file_job(ctx, Some(dest), FileJob::ZipExtract { file, dest: job_dest }, Phase::Extracting))
        },
        TextAction::Grep => {
            if value.unicode_len() == 0 {
                return Ok(PromptEffect::Nothing);
            }
            let dir = owned(ctx.active_filer().current_dir_path());
            Ok(PromptEffect::Grep { dir, pattern: owned(value) })
        },
        TextAction::Execute { .. } => Ok(PromptEffect::Nothing),
        TextAction::Filter => {
            ctx.active_filer_mut().set_filter(owned(value));
            Ok(PromptEffect::Nothing)
        },
    }
}

} // verus!
