//! Commands of the input line.
use vstd::prelude::*;
use crate::cmd::filer::lend;
use crate::component::completion::{cycle_candidates, cycled, path_completions, spec_path_query, CycleDirection};
use crate::component::filer::{action_targets, spec_action_title, FilerComponent};
use crate::fs::file::VFile;
use crate::path::spec_file_name;
use crate::state::app_state::{AppState, InputMode};
use crate::state::filer::{found_backward, found_forward, search_skip};
use crate::state::{ConfirmAction, FileAction, SelectAction, SortKey, TextAction};
use crate::text::{owned, push_str, views};

verus! {

/// A file operation the input line asks for; doing it is the caller's.
#[derive(Debug)]
pub enum FileOp {
    Copy { file: VFile, dest: String },
    Move { file: VFile, dest: String },
    Delete { file: VFile },
    CreateDir { dir: VFile, name: String },
    CreateFile { dir: VFile, name: String },
    Rename { file: VFile, name: String },
}

/// After the typed value changed: candidates are forgotten, and a search
/// moves the file list's cursor to the first match.
fn after_input_value_changed(state: &mut AppState)
    requires
        old(state).wf(),
    ensures
        final(state).wf(),
        final(state).filer.current_dir_files == old(state).filer.current_dir_files,
        old(state).input matches InputMode::File { value, .. } ==> (final(state).input matches InputMode::File { value: v, .. } && v == value),
        old(state).input matches InputMode::File { title, value, action, .. } ==> (final(state).input matches InputMode::File {
            title: t, value: v, candidates, candidate_index, action: a } && t == title && v == value && a == action
            && candidates@.len() == 0 && candidate_index is None),
        !(old(state).input is File) ==> final(state).input == old(state).input,
        old(state).input matches InputMode::Search { value, .. } ==> (final(state).filer.checked_paths == old(state).filer.checked_paths
            && final(state).filer.current_dir == old(state).filer.current_dir
            && found_forward(old(state).filer.current_dir_files@, value@, old(state).filer.selected, 0, final(state).filer.selected)),
        !(old(state).input is Search) ==> final(state).filer == old(state).filer,
        *final(state) == old(state).with_input(final(state).input).with_filer(final(state).filer),
{
    state.input.reset_candidates();
    match &state.input {
        InputMode::Search { value, .. } => state.filer.select_matching_file(value.as_str()),
        _ => {},
    }
}

/// Types `c` at the end of the value of a text, path or search input.
pub fn input_char(state: &mut AppState, c: char) -> (r: Result<(), String>)
    requires
        old(state).wf(),
    ensures
        r is Ok,
        final(state).wf(),
        old(state).input matches InputMode::Text { value, .. } ==> (final(state).input matches InputMode::Text { value: v, .. } && v@ == value@.push(c)),
        old(state).input matches InputMode::File { value, .. } ==> (final(state).input matches InputMode::File { value: v, .. } && v@ == value@.push(c)),
        old(state).input matches InputMode::Search { value, .. } ==> (final(state).input matches InputMode::Search { value: v, .. } && v@ == value@.push(c)),
        old(state).input matches InputMode::Text { title, value, action } ==> (final(state).input matches InputMode::Text {
            title: t, value: v, action: a } && t == title && a == action && v@ == value@.push(c)),
        old(state).input matches InputMode::File { title, value, action, .. } ==> (final(state).input matches InputMode::File {
            title: t, value: v, candidates, candidate_index, action: a } && t == title && a == action && v@ == value@.push(c)
            && candidates@.len() == 0 && candidate_index is None),
        old(state).input matches InputMode::Search { title, value } ==> (final(state).input matches InputMode::Search { title: t, value: v }
            && t == title && v@ == value@.push(c)
            && final(state).filer.checked_paths == old(state).filer.checked_paths
            && final(state).filer.current_dir == old(state).filer.current_dir
            && final(state).filer.current_dir_files == old(state).filer.current_dir_files
            && found_forward(old(state).filer.current_dir_files@, v@, old(state).filer.selected, 0, final(state).filer.selected)),
        !(old(state).input is Text || old(state).input is File || old(state).input is Search) ==> *final(state) == *old(state),
        !(old(state).input is Search) ==> final(state).filer == old(state).filer,
        *final(state) == old(state).with_input(final(state).input).with_filer(final(state).filer),
{
    match &mut state.input {
        InputMode::Text { value, .. } => crate::text::push_char(value, c),
        InputMode::File { value, .. } => crate::text::push_char(value, c),
        InputMode::Search { value, .. } => crate::text::push_char(value, c),
        _ => {},
    }
    after_input_value_changed(state);
    Ok(())
}

/// Removes the last character of `s`, if any.
fn pop_char(s: &mut String)
    ensures
        final(s)@ == if old(s)@.len() > 0 { old(s)@.drop_last() } else { old(s)@ },
{
    let mut v = crate::text::chars_of(s.as_str());
    if v.len() > 0 {
        v.pop();
        assert(v@ =~= old(s)@.drop_last());
        *s = crate::text::string_of(v.as_slice());
    }
}

/// Removes the last character of the value of a text, path or search
/// input.
pub fn input_backspace(state: &mut AppState) -> (r: Result<(), String>)
    requires
        old(state).wf(),
    ensures
        r is Ok,
        final(state).wf(),
        old(state).input matches InputMode::Text { value, .. } ==> (final(state).input matches InputMode::Text { value: v, .. }
            && v@ == if value@.len() > 0 { value@.drop_last() } else { value@ }),
        old(state).input matches InputMode::File { value, .. } ==> (final(state).input matches InputMode::File { value: v, .. }
            && v@ == if value@.len() > 0 { value@.drop_last() } else { value@ }),
        old(state).input matches InputMode::Search { value, .. } ==> (final(state).input matches InputMode::Search { value: v, .. }
            && v@ == if value@.len() > 0 { value@.drop_last() } else { value@ }),
        old(state).input matches InputMode::Text { title, value, action } ==> (final(state).input matches InputMode::Text {
            title: t, value: v, action: a } && t == title && a == action && v@ == (if value@.len() > 0 { value@.drop_last() } else { value@ })),
        old(state).input matches InputMode::File { title, value, action, .. } ==> (final(state).input matches InputMode::File {
            title: t, value: v, candidates, candidate_index, action: a } && t == title && a == action && v@ == (if value@.len() > 0 { value@.drop_last() } else { value@ })
            && candidates@.len() == 0 && candidate_index is None),
        old(state).input matches InputMode::Search { title, value } ==> (final(state).input matches InputMode::Search { title: t, value: v }
            && t == title && v@ == (if value@.len() > 0 { value@.drop_last() } else { value@ })
            && final(state).filer.checked_paths == old(state).filer.checked_paths
            && final(state).filer.current_dir == old(state).filer.current_dir
            && final(state).filer.current_dir_files == old(state).filer.current_dir_files
            && found_forward(old(state).filer.current_dir_files@, v@, old(state).filer.selected, 0, final(state).filer.selected)),
        !(old(state).input is Text || old(state).input is File || old(state).input is Search) ==> *final(state) == *old(state),
        !(old(state).input is Search) ==> final(state).filer == old(state).filer,
        *final(state) == old(state).with_input(final(state).input).with_filer(final(state).filer),
{
    match &mut state.input {
        InputMode::Text { value, .. } => pop_char(value),
        InputMode::File { value, .. } => pop_char(value),
        InputMode::Search { value, .. } => pop_char(value),
        _ => {},
    }
    after_input_value_changed(state);
    Ok(())
}

/// Typing a character and then Backspace gives back the value typed
/// before (`input_char` appends, `input_backspace` drops the last one).
pub proof fn lemma_backspace_undoes_char(value: Seq<char>, c: char)
    ensures
        value.push(c).len() > 0,
        value.push(c).drop_last() == value,
{
    assert(value.push(c).drop_last() =~= value);
}

/// The previous option of a choice, from the first to the last.
pub fn input_select_left(state: &mut AppState) -> (r: Result<(), String>)
    requires
        old(state).wf(),
    ensures
        r is Ok,
        final(state).wf(),
        old(state).input matches InputMode::Select { options, selected_index, .. } ==> (final(state).input matches InputMode::Select {
            selected_index: k, .. } && k == crate::component::prompt::select_left(selected_index as nat, options@.len())),
        old(state).input matches InputMode::Select { title, options, selected_index, action } ==> final(state).input == (InputMode::Select {
            title,
            options,
            selected_index: crate::component::prompt::select_left(selected_index as nat, options@.len()) as usize,
            action,
        }),
        !(old(state).input is Select) ==> final(state).input == old(state).input,
        *final(state) == old(state).with_input(final(state).input),
{
    match &mut state.input {
        InputMode::Select { selected_index, options, .. } => {
            if *selected_index > 0 {
                *selected_index = *selected_index - 1;
            } else if options.len() > 0 {
                *selected_index = options.len() - 1;
            } else {
                *selected_index = 0;
            }
        },
        _ => {},
    }
    Ok(())
}

/// The next option of a choice, from the last to the first.
pub fn input_select_right(state: &mut AppState) -> (r: Result<(), String>)
    requires
        old(state).wf(),
    ensures
        r is Ok,
        final(state).wf(),
        old(state).input matches InputMode::Select { options, selected_index, .. } ==> (final(state).input matches InputMode::Select {
            selected_index: k, .. } && k == crate::component::prompt::select_right(selected_index as nat, options@.len())),
        old(state).input matches InputMode::Select { title, options, selected_index, action } ==> final(state).input == (InputMode::Select {
            title,
            options,
            selected_index: crate::component::prompt::select_right(selected_index as nat, options@.len()) as usize,
            action,
        }),
        !(old(state).input is Select) ==> final(state).input == old(state).input,
        *final(state) == old(state).with_input(final(state).input),
{
    match &mut state.input {
        InputMode::Select { selected_index, options, .. } => {
            if *selected_index < options.len() && options.len() - *selected_index > 1 {
                *selected_index = *selected_index + 1;
            } else {
                *selected_index = 0;
            }
        },
        _ => {},
    }
    Ok(())
}

/// Tab on a path input: the next completion of the typed path (see
/// `cycle_candidates`); `list` lists a directory.
pub fn input_tab<L: Fn(&str) -> Result<Vec<VFile>, String>>(state: &mut AppState, list: &L) -> (r: Result<(), String>)
    requires
        old(state).wf(),
        forall|s: &str| call_requires(*list, (s,)),
    ensures
        final(state).wf(),
        final(state).filer == old(state).filer,
        !(old(state).input is File) ==> final(state).input == old(state).input && r is Ok,
        old(state).input matches InputMode::File { title, value, candidates, candidate_index, action } ==> (
            final(state).input matches InputMode::File { title: t, value: v, candidates: cs, candidate_index: ci, action: a }
            && t == title && a == action
            && cycled(value@, candidates@, candidate_index, CycleDirection::Forward, v@, cs@, ci, r is Ok)
            && (candidates@.len() == 0 && r is Ok ==> path_completions(value@, false, *list, views(cs@)))
            && (candidates@.len() == 0 ==> (spec_path_query(value@) matches Err(e) ==> (r matches Err(m) && m@ == e)))),
        *final(state) == old(state).with_input(final(state).input),
{
    match &mut state.input {
        InputMode::File { value, candidates, candidate_index, .. } => {
            cycle_candidates(value, candidates, candidate_index, CycleDirection::Forward, false, list)
        },
        _ => Ok(()),
    }
}

/// Leaves the input line.
pub fn input_cancel(state: &mut AppState) -> (r: Result<(), String>)
    requires
        old(state).wf(),
    ensures
        r is Ok,
        final(state).wf(),
        final(state).input is Closed,
        final(state).filer == old(state).filer,
        *final(state) == old(state).with_input(final(state).input),
{
    state.input = InputMode::Closed;
    Ok(())
}

/// The path input a copy (`is_move` false) or a move opens on `before`'s
/// action files, headed by `label`: nothing without files, else the files,
/// the title, and the one file's path or the current directory as the
/// value, with no candidates.
pub open spec fn file_input_started(before: AppState, label: Seq<char>, is_move: bool, after: InputMode) -> bool {
    let files = action_targets(before.filer);
    &&& files.len() == 0 ==> after == before.input
    &&& files.len() > 0 ==> (after matches InputMode::File { title, value, candidates, candidate_index, action }
        && title@ == spec_action_title(label, files)
        && value@ == (if files.len() == 1 { files[0].path@ } else { before.filer.current_dir.path@ })
        && candidates@.len() == 0 && candidate_index is None
        && (if is_move { action matches FileAction::Move { files: fs } && fs@ == files }
            else { action matches FileAction::Copy { files: fs } && fs@ == files }))
}

/// A path input on the action's files (see `action_targets`), starting at
/// the one file's path or the current directory.
fn start_file_input(state: &mut AppState, label: &str, is_move: bool) -> (r: Result<(), String>)
    requires
        old(state).wf(),
    ensures
        r is Ok,
        final(state).wf(),
        final(state).filer == old(state).filer,
        file_input_started(*old(state), label@, is_move, final(state).input),
        *final(state) == old(state).with_input(final(state).input),
{
    let c = lend(state);
    let files = c.collect_action_targets();
    state.filer = c.state;
    if files.len() == 0 {
        return Ok(());
    }
    let title = FilerComponent::action_title(label, files.as_slice());
    let value = if files.len() == 1 { owned(files[0].absolute_path()) } else { owned(state.filer.current_dir_path()) };
    let action = if is_move { FileAction::Move { files } } else { FileAction::Copy { files } };
    state.input = InputMode::File { title, value, candidates: Vec::new(), candidate_index: None, action };
    Ok(())
}

pub fn input_copy(state: &mut AppState) -> (r: Result<(), String>)
    requires
        old(state).wf(),
    ensures
        r is Ok,
        final(state).wf(),
        final(state).filer == old(state).filer,
        action_targets(old(state).filer).len() > 0 ==> (final(state).input matches InputMode::File { title, action, .. }
            && title@ == spec_action_title("Copy to"@, action_targets(old(state).filer)) && action is Copy),
        file_input_started(*old(state), "Copy to"@, false, final(state).input),
        *final(state) == old(state).with_input(final(state).input),
{
    start_file_input(state, "Copy to", false)
}

pub fn input_move(state: &mut AppState) -> (r: Result<(), String>)
    requires
        old(state).wf(),
    ensures
        r is Ok,
        final(state).wf(),
        final(state).filer == old(state).filer,
        action_targets(old(state).filer).len() > 0 ==> (final(state).input matches InputMode::File { title, action, .. }
            && title@ == spec_action_title("Move to"@, action_targets(old(state).filer)) && action is Move),
        file_input_started(*old(state), "Move to"@, true, final(state).input),
        *final(state) == old(state).with_input(final(state).input),
{
    start_file_input(state, "Move to", true)
}

/// Asks to confirm deleting the action's files.
pub fn input_delete(state: &mut AppState) -> (r: Result<(), String>)
    requires
        old(state).wf(),
    ensures
        r is Ok,
        final(state).wf(),
        final(state).filer == old(state).filer,
        action_targets(old(state).filer).len() == 0 ==> final(state).input == old(state).input,
        action_targets(old(state).filer).len() > 0 ==> (final(state).input matches InputMode::Confirm { title, action: ConfirmAction::Delete { files } }
            && title@ == spec_action_title("Delete"@, action_targets(old(state).filer)) && files@ == action_targets(old(state).filer)),
        *final(state) == old(state).with_input(final(state).input),
{
    let c = lend(state);
    let files = c.collect_action_targets();
    state.filer = c.state;
    if files.len() == 0 {
        return Ok(());
    }
    let title = FilerComponent::action_title("Delete", files.as_slice());
    state.input = InputMode::Confirm { title, action: ConfirmAction::Delete { files } };
    Ok(())
}

/// A text input naming a new directory in the current one.
pub fn input_mkdir(state: &mut AppState) -> (r: Result<(), String>)
    requires
        old(state).wf(),
    ensures
        r is Ok,
        final(state).wf(),
        final(state).filer == old(state).filer,
        spec_file_name(old(state).filer.current_dir.path@) is None ==> final(state).input == old(state).input,
        spec_file_name(old(state).filer.current_dir.path@) matches Some(n) ==> (final(state).input matches InputMode::Text { title, value, action }
            && title@ == "Create directory in "@ + n && value@.len() == 0 && action == (TextAction::Mkdir { dir: old(state).filer.current_dir })),
        *final(state) == old(state).with_input(final(state).input),
{
    let dir = state.filer.current_dir.duplicate();
    match dir.file_name() {
        Some(name) => {
            let mut title = owned("Create directory in ");
            push_str(&mut title, name.as_str());
            state.input = InputMode::Text { title, value: String::new(), action: TextAction::Mkdir { dir } };
        },
        None => {},
    }
    Ok(())
}

/// A text input renaming the selected file, its name typed in.
pub fn input_rename(state: &mut AppState) -> (r: Result<(), String>)
    requires
        old(state).wf(),
    ensures
        r is Ok,
        final(state).wf(),
        final(state).filer == old(state).filer,
        old(state).filer.selected matches Some(i) ==> (spec_file_name(old(state).filer.current_dir_files@[i as int].path@) matches Some(n) ==> (
            final(state).input matches InputMode::Text { title, value, action } && title@ == "Rename "@ + n && value@ == n
            && action == (TextAction::Rename { file: old(state).filer.current_dir_files@[i as int] }))),
        old(state).filer.selected is None ==> final(state).input == old(state).input,
        *final(state) == old(state).with_input(final(state).input),
        old(state).filer.selected matches Some(i) ==> (spec_file_name(old(state).filer.current_dir_files@[i as int].path@) is None
            ==> *final(state) == *old(state)),
{
    let file = match state.filer.selected_file() {
        Some(f) => f.duplicate(),
        None => {
            return Ok(());
        },
    };
    match file.file_name() {
        Some(name) => {
            let mut title = owned("Rename ");
            push_str(&mut title, name.as_str());
            state.input = InputMode::Text { title, value: name, action: TextAction::Rename { file } };
        },
        None => {},
    }
    Ok(())
}

/// An empty search input.
pub fn input_search(state: &mut AppState) -> (r: Result<(), String>)
    requires
        old(state).wf(),
    ensures
        r is Ok,
        final(state).wf(),
        final(state).filer == old(state).filer,
        final(state).input matches InputMode::Search { title, value } && title@ == "Search"@ && value@.len() == 0,
        *final(state) == old(state).with_input(final(state).input),
{
    state.input = InputMode::Search { title: owned("Search"), value: String::new() };
    Ok(())
}

/// The next file matching the search (see `select_next_matching_file`).
pub fn input_search_next(state: &mut AppState) -> (r: Result<(), String>)
    requires
        old(state).wf(),
    ensures
        r is Ok,
        final(state).wf(),
        final(state).input == old(state).input,
        final(state).filer.current_dir_files == old(state).filer.current_dir_files,
        !(old(state).input is Search) ==> final(state).filer == old(state).filer,
        old(state).input matches InputMode::Search { value, .. } ==> (final(state).filer.checked_paths == old(state).filer.checked_paths
            && final(state).filer.current_dir == old(state).filer.current_dir
            && found_forward(old(state).filer.current_dir_files@, value@, old(state).filer.selected, search_skip(old(state).filer.selected), final(state).filer.selected)),
        *final(state) == old(state).with_filer(final(state).filer),
{
    match &state.input {
        InputMode::Search { value, .. } => state.filer.select_next_matching_file(value.as_str()),
        _ => {},
    }
    Ok(())
}

/// The previous file matching the search.
pub fn input_search_prev(state: &mut AppState) -> (r: Result<(), String>)
    requires
        old(state).wf(),
    ensures
        r is Ok,
        final(state).wf(),
        final(state).input == old(state).input,
        final(state).filer.current_dir_files == old(state).filer.current_dir_files,
        !(old(state).input is Search) ==> final(state).filer == old(state).filer,
        old(state).input matches InputMode::Search { value, .. } ==> (final(state).filer.checked_paths == old(state).filer.checked_paths
            && final(state).filer.current_dir == old(state).filer.current_dir
            && found_backward(old(state).filer.current_dir_files@, value@, old(state).filer.selected, final(state).filer.selected)),
        *final(state) == old(state).with_filer(final(state).filer),
{
    match &state.input {
        InputMode::Search { value, .. } => state.filer.select_prev_matching_file(value.as_str()),
        _ => {},
    }
    Ok(())
}

/// The sort choice, the current key selected.
pub fn input_sort(state: &mut AppState) -> (r: Result<(), String>)
    requires
        old(state).wf(),
    ensures
        r is Ok,
        final(state).wf(),
        final(state).filer == old(state).filer,
        final(state).input matches InputMode::Select { title, options, selected_index, action }
            && title@ == "Sort by"@ && views(options@) == crate::component::filer::sort_labels()
            && selected_index == crate::state::spec_sort_key_index(old(state).filer.sort_key) && action == SelectAction::Sort,
        *final(state) == old(state).with_input(final(state).input),
{
    state.input = InputMode::Select {
        title: owned("Sort by"),
        options: SortKey::labels(),
        selected_index: state.filer.sort_key.index(),
        action: SelectAction::Sort,
    };
    Ok(())
}

/// `op` is what `kind` asks of `file`: 0 a copy to `dest`, 1 a move to
/// `dest`, else a deletion.
pub open spec fn is_op_for(op: FileOp, file: VFile, dest: Seq<char>, kind: u8) -> bool {
    if kind == 0 {
        op matches FileOp::Copy { file: f, dest: d } && f == file && d@ == dest
    } else if kind == 1 {
        op matches FileOp::Move { file: f, dest: d } && f == file && d@ == dest
    } else {
        op matches FileOp::Delete { file: f } && f == file
    }
}

/// `run` was handed the operation `kind` asks of `file` and answered `answer`.
pub open spec fn ran_with<R: Fn(&FileOp) -> Result<(), String>>(run: R, file: VFile, dest: Seq<char>, kind: u8, answer: Result<(), String>) -> bool {
    exists|op: FileOp| is_op_for(op, file, dest, kind) && #[trigger] call_ensures(run, (&op,), answer)
}

/// `r` is what running `run` on the operation `kind` asks of each of
/// `files` in order, stopping at the first failure, gives.
pub open spec fn ran_each<R: Fn(&FileOp) -> Result<(), String>>(run: R, files: Seq<VFile>, dest: Seq<char>, kind: u8, r: Result<(), String>) -> bool {
    &&& r is Ok ==> forall|i: int| 0 <= i < files.len() ==> ran_with(run, #[trigger] files[i], dest, kind, Ok(()))
    &&& r matches Err(e) ==> exists|i: int| 0 <= i < files.len() && ran_with(run, #[trigger] files[i], dest, kind, Err(e))
        && forall|j: int| 0 <= j < i ==> ran_with(run, #[trigger] files[j], dest, kind, Ok(()))
    &&& files.len() == 0 ==> r is Ok
}

/// Runs `run` on the operation `kind` asks of each file, in order, stopping
/// at the first failure, whose error is returned.
fn run_for_each<R: Fn(&FileOp) -> Result<(), String>>(files: Vec<VFile>, dest: &str, kind: u8, run: &R) -> (r: Result<(), String>)
    requires
        forall|o: &FileOp| call_requires(*run, (o,)),
    ensures
        r is Ok ==> forall|i: int| 0 <= i < files@.len() ==> ran_with(*run, #[trigger] files@[i], dest@, kind, Ok(())),
        r matches Err(e) ==> exists|i: int| 0 <= i < files@.len() && ran_with(*run, #[trigger] files@[i], dest@, kind, Err(e))
            && forall|j: int| 0 <= j < i ==> ran_with(*run, #[trigger] files@[j], dest@, kind, Ok(())),
        files@.len() == 0 ==> r is Ok,
        ran_each(*run, files@, dest@, kind, r),
{
    let mut i: usize = 0;
    while i < files.len()
        invariant
            i <= files@.len(),
            forall|o: &FileOp| call_requires(*run, (o,)),
            forall|j: int| 0 <= j < i ==> ran_with(*run, #[trigger] files@[j], dest@, kind, Ok(())),
        decreases files@.len() - i,
    {
        let file = files[i].duplicate();
        let op = if kind == 0 {
            FileOp::Copy { file, dest: owned(dest) }
        } else if kind == 1 {
            FileOp::Move { file, dest: owned(dest) }
        } else {
            FileOp::Delete { file }
        };
        assert(is_op_for(op, files@[i as int], dest@, kind));
        let outcome = run(&op);
        assert(ran_with(*run, files@[i as int], dest@, kind, outcome));
        proof {
            if outcome is Ok {
                let u: () = outcome->Ok_0;
                assert(u == ());
                assert(outcome == Ok::<(), String>(()));
            }
        }
        match outcome {
            Ok(()) => {},
            Err(e) => {
                return Err(e);
            },
        }
        i += 1;
    }
    Ok(())
}

/// Carries out the input: a deletion, copy or move runs `run` on each
/// file (stopping at the first failure); a new directory or file or a
/// rename runs it once (a renamed file is selected once listed); a jump
/// goes to the typed path; a sort choice re-sorts. The input line closes;
/// the checks are cleared after a success, except after sorting.
pub fn input_ok<R: Fn(&FileOp) -> Result<(), String>>(state: &mut AppState, run: &R) -> (r: Result<(), String>)
    requires
        old(state).wf(),
        forall|o: &FileOp| call_requires(*run, (o,)),
    ensures
        final(state).wf(),
        final(state).input is Closed,
        r is Ok && !(old(state).input matches InputMode::Select { action: SelectAction::Sort, .. }) ==> final(state).filer.checked_paths@.len() == 0,
        old(state).input matches InputMode::Select { action: SelectAction::Sort, selected_index, .. } ==> (r is Ok
            && (crate::state::spec_sort_key_at(selected_index as nat) matches Some(k) ==> final(state).filer.sort_key == k)),
        (old(state).input is Closed || old(state).input is Error || old(state).input is Search) ==> r is Ok,
        old(state).input matches InputMode::Select { action: SelectAction::Sort, .. } ==> final(state).filer.checked_paths
            == old(state).filer.checked_paths,
        r is Err ==> final(state).filer.checked_paths == old(state).filer.checked_paths,
        (old(state).input is Closed || old(state).input is Error || old(state).input is Search) ==> final(state).filer.checked_paths@.len() == 0
            && final(state).filer == old(state).filer.with_checked_paths(final(state).filer.checked_paths),
        *final(state) == old(state).with_input(InputMode::Closed).with_filer(final(state).filer),
        old(state).input matches InputMode::Confirm { action: ConfirmAction::Delete { files }, .. } ==> ran_each(*run, files@, ""@, 2, r),
        old(state).input matches InputMode::File { action: FileAction::Copy { files }, value, .. } ==> ran_each(*run, files@, value@, 0, r),
        old(state).input matches InputMode::File { action: FileAction::Move { files }, value, .. } ==> ran_each(*run, files@, value@, 1, r),
        old(state).input matches InputMode::File { action: FileAction::Jump, value, .. } ==> r is Ok
            && final(state).filer.current_dir.path@ == value@,
        old(state).input matches InputMode::Text { action: TextAction::Mkdir { dir }, value, .. } ==> call_ensures(*run,
            (&(FileOp::CreateDir { dir, name: value }),), r),
        old(state).input matches InputMode::Text { action: TextAction::Touch { dir }, value, .. } ==> call_ensures(*run,
            (&(FileOp::CreateFile { dir, name: value }),), r),
        old(state).input matches InputMode::Text { action: TextAction::Rename { file }, value, .. } ==> (exists|n: String|
            n@ == value@ && #[trigger] call_ensures(*run, (&(FileOp::Rename { file, name: n }),), r))
            && (r is Ok ==> (final(state).filer.pending_select_name matches Some(p) && p@ == value@)),
        old(state).input matches InputMode::Text { action, .. } ==> (!(action is Mkdir || action is Touch || action is Rename) ==> r is Ok),
{
    let mut input = InputMode::Closed;
    std::mem::swap(&mut input, &mut state.input);
    let skip_clear = match &input {
        InputMode::Select { action: SelectAction::Sort, .. } => true,
        _ => false,
    };
    let result = match input {
        InputMode::Confirm { action, .. } => match action {
            ConfirmAction::Delete { files } => run_for_each(files, "", 2, run),
        },
        InputMode::Text { action, value, .. } => match action {
            TextAction::Mkdir { dir } => {
                let op = FileOp::CreateDir { dir, name: value };
                let outcome = run(&op);
                assert(call_ensures(*run, (&op,), outcome));
                outcome
            },
            TextAction::Touch { dir } => {
                let op = FileOp::CreateFile { dir, name: value };
                let outcome = run(&op);
                assert(call_ensures(*run, (&op,), outcome));
                outcome
            },
            TextAction::Rename { file } => {
                let name = value.clone();
                let op = FileOp::Rename { file, name };
                let outcome = run(&op);
                assert(call_ensures(*run, (&op,), outcome));
                if outcome.is_ok() {
                    state.filer.set_pending_select_name(value);
                }
                outcome
            },
            _ => Ok(()),
        },
        InputMode::File { action, value, .. } => match action {
            FileAction::Copy { files } => run_for_each(files, value.as_str(), 0, run),
            FileAction::Move { files } => run_for_each(files, value.as_str(), 1, run),
            FileAction::Jump => {
                state.filer.change_to(value.as_str());
                Ok(())
            },
        },
        InputMode::Select { action, selected_index, .. } => match action {
            SelectAction::Sort => {
                match SortKey::at(selected_index) {
                    Some(k) => {
                        state.filer.sort_key = k;
                        state.filer.refresh_files();
                    },
                    None => {},
                }
                Ok(())
            },
        },
        _ => Ok(()),
    };
    if result.is_err() {
        return result;
    }
    proof {
        let u: () = result->Ok_0;
        assert(u == ());
        assert(result == Ok::<(), String>(()));
    }
    if !skip_clear {
        state.filer.clear_checked_paths();
    }
    Ok(())
}

} // verus!
