//! Commands of the file list.
use vstd::prelude::*;
use crate::component::filer::{
    is_create_prompt, is_delete_prompt, is_rename_prompt, is_transfer_prompt, is_zip_prompt, FilerComponent,
};
use crate::component::Action;
use crate::path::spec_parent;
use crate::state::app_state::AppState;
use crate::state::filer::FilerState;
use crate::state::path_list::PathListState;
use crate::state::table_cursor::{spec_first, spec_last, spec_next, spec_prev};
use crate::state::PromptMode;
use crate::store::{BookmarkStore, RootStore};
use crate::text::{owned, views};

verus! {

/// The prompt after an action that may open one.
pub open spec fn prompt_after(a: Action, before: PromptMode) -> PromptMode {
    match a {
        Action::SetPromptMode(m) => *m,
        _ => before,
    }
}

/// The file list's prompt builders work on the list; the list is lent to
/// one and given back.
pub fn lend(state: &mut AppState) -> (c: FilerComponent)
    ensures
        c.state == old(state).filer,
        final(state).filer.wf(),
        final(state).side_panel == old(state).side_panel,
        final(state).bookmark_list == old(state).bookmark_list,
        final(state).bookmark == old(state).bookmark,
        final(state).input == old(state).input,
        final(state).prompt == old(state).prompt,
        final(state).bookmarked_paths == old(state).bookmarked_paths,
        final(state).running == old(state).running,
        *final(state) == old(state).with_filer(final(state).filer),
{
    let mut tmp = FilerState::new();
    std::mem::swap(&mut tmp, &mut state.filer);
    FilerComponent { state: tmp, active: true }
}

/// Shows the prompt an action opens.
pub fn open_prompt(state: &mut AppState, a: Action)
    ensures
        final(state).prompt == prompt_after(a, old(state).prompt),
        final(state).filer == old(state).filer,
        final(state).side_panel == old(state).side_panel,
        final(state).bookmark_list == old(state).bookmark_list,
        final(state).bookmark == old(state).bookmark,
        final(state).input == old(state).input,
        *final(state) == old(state).with_prompt(final(state).prompt),
{
    match a {
        Action::SetPromptMode(m) => {
            state.prompt = *m;
        },
        _ => {},
    }
}

pub fn change_to_parent(state: &mut AppState) -> (r: Result<(), String>)
    requires
        old(state).wf(),
    ensures
        r is Ok,
        final(state).wf(),
        spec_parent(old(state).filer.current_dir.path@) matches Some(p) ==> final(state).filer.current_dir.path@ == p,
        spec_parent(old(state).filer.current_dir.path@) is None ==> final(state).filer == old(state).filer,
        *final(state) == old(state).with_filer(final(state).filer),
{
    state.filer.change_dir_in_parent_dir();
    Ok(())
}

pub fn up_cursor(state: &mut AppState) -> (r: Result<(), String>)
    requires
        old(state).wf(),
    ensures
        r is Ok,
        final(state).wf(),
        final(state).filer.selected == spec_prev(old(state).filer.selected, old(state).filer.current_dir_files@.len()),
        *final(state) == old(state).with_filer(old(state).filer.with_selected(final(state).filer.selected)),
{
    state.filer.prev();
    Ok(())
}

pub fn down_cursor(state: &mut AppState) -> (r: Result<(), String>)
    requires
        old(state).wf(),
    ensures
        r is Ok,
        final(state).wf(),
        final(state).filer.selected == spec_next(old(state).filer.selected, old(state).filer.current_dir_files@.len()),
        *final(state) == old(state).with_filer(old(state).filer.with_selected(final(state).filer.selected)),
{
    state.filer.next();
    Ok(())
}

pub fn first_cursor(state: &mut AppState) -> (r: Result<(), String>)
    requires
        old(state).wf(),
    ensures
        r is Ok,
        final(state).wf(),
        final(state).filer.selected == spec_first(old(state).filer.current_dir_files@.len()),
        *final(state) == old(state).with_filer(old(state).filer.with_selected(final(state).filer.selected)),
{
    state.filer.first();
    Ok(())
}

pub fn last_cursor(state: &mut AppState) -> (r: Result<(), String>)
    requires
        old(state).wf(),
    ensures
        r is Ok,
        final(state).wf(),
        final(state).filer.selected == spec_last(old(state).filer.current_dir_files@.len()),
        *final(state) == old(state).with_filer(old(state).filer.with_selected(final(state).filer.selected)),
{
    state.filer.last();
    Ok(())
}

/// Enter: into a selected directory; another file is handed to `open`.
pub fn enter_file<O: Fn(&str) -> Result<(), String>>(state: &mut AppState, open: &O) -> (r: Result<(), String>)
    requires
        old(state).wf(),
        forall|s: &str| call_requires(*open, (s,)),
    ensures
        final(state).wf(),
        old(state).filer.selected is None ==> r is Ok && final(state).filer == old(state).filer,
        old(state).filer.selected matches Some(i) ==> (old(state).filer.current_dir_files@[i as int].metadata matches Some(m)
            ==> (m.kind == crate::fs::file::FileKind::Directory ==> (r is Ok
            && final(state).filer.current_dir.path@ == old(state).filer.current_dir_files@[i as int].path@))),
        *final(state) == old(state).with_filer(final(state).filer),
{
    let (is_dir, path) = match state.filer.selected_file() {
        Some(f) => (f.is_dir(), owned(f.absolute_path())),
        None => {
            return Ok(());
        },
    };
    if is_dir {
        state.filer.change_to(path.as_str());
        Ok(())
    } else {
        open(path.as_str())
    }
}

pub fn prompt_copy(state: &mut AppState) -> (r: Result<(), String>)
    requires
        old(state).wf(),
    ensures
        r is Ok,
        final(state).wf(),
        final(state).filer == old(state).filer,
        exists|a: Action| #[trigger] is_transfer_prompt(a, old(state).filer, "Copy to"@, false) && final(state).prompt == prompt_after(a, old(state).prompt),
        *final(state) == old(state).with_prompt(final(state).prompt),
{
    let c = lend(state);
    let a = c.prompt_copy();
    state.filer = c.state;
    open_prompt(state, a);
    Ok(())
}

pub fn prompt_move(state: &mut AppState) -> (r: Result<(), String>)
    requires
        old(state).wf(),
    ensures
        r is Ok,
        final(state).wf(),
        final(state).filer == old(state).filer,
        exists|a: Action| #[trigger] is_transfer_prompt(a, old(state).filer, "Move to"@, true) && final(state).prompt == prompt_after(a, old(state).prompt),
        *final(state) == old(state).with_prompt(final(state).prompt),
{
    let c = lend(state);
    let a = c.prompt_move();
    state.filer = c.state;
    open_prompt(state, a);
    Ok(())
}

pub fn prompt_delete(state: &mut AppState) -> (r: Result<(), String>)
    requires
        old(state).wf(),
    ensures
        r is Ok,
        final(state).wf(),
        final(state).filer == old(state).filer,
        exists|a: Action| #[trigger] is_delete_prompt(a, old(state).filer) && final(state).prompt == prompt_after(a, old(state).prompt),
        *final(state) == old(state).with_prompt(final(state).prompt),
{
    let c = lend(state);
    let a = c.prompt_delete();
    state.filer = c.state;
    open_prompt(state, a);
    Ok(())
}

pub fn prompt_mkdir(state: &mut AppState) -> (r: Result<(), String>)
    requires
        old(state).wf(),
    ensures
        r is Ok,
        final(state).wf(),
        final(state).filer == old(state).filer,
        exists|a: Action| #[trigger] is_create_prompt(a, old(state).filer, true) && final(state).prompt == prompt_after(a, old(state).prompt),
        *final(state) == old(state).with_prompt(final(state).prompt),
{
    let c = lend(state);
    let a = c.prompt_mkdir();
    state.filer = c.state;
    open_prompt(state, a);
    Ok(())
}

pub fn prompt_touch(state: &mut AppState) -> (r: Result<(), String>)
    requires
        old(state).wf(),
    ensures
        r is Ok,
        final(state).wf(),
        final(state).filer == old(state).filer,
        exists|a: Action| #[trigger] is_create_prompt(a, old(state).filer, false) && final(state).prompt == prompt_after(a, old(state).prompt),
        *final(state) == old(state).with_prompt(final(state).prompt),
{
    let c = lend(state);
    let a = c.prompt_touch();
    state.filer = c.state;
    open_prompt(state, a);
    Ok(())
}

pub fn prompt_zip(state: &mut AppState) -> (r: Result<(), String>)
    requires
        old(state).wf(),
    ensures
        r is Ok,
        final(state).wf(),
        final(state).filer == old(state).filer,
        exists|a: Action| #[trigger] is_zip_prompt(a, old(state).filer) && final(state).prompt == prompt_after(a, old(state).prompt),
        *final(state) == old(state).with_prompt(final(state).prompt),
{
    let c = lend(state);
    let a = c.prompt_zip();
    state.filer = c.state;
    open_prompt(state, a);
    Ok(())
}

pub fn prompt_rename(state: &mut AppState) -> (r: Result<(), String>)
    requires
        old(state).wf(),
    ensures
        r is Ok,
        final(state).wf(),
        final(state).filer == old(state).filer,
        exists|a: Action| #[trigger] is_rename_prompt(a, old(state).filer) && final(state).prompt == prompt_after(a, old(state).prompt),
        *final(state) == old(state).with_prompt(final(state).prompt),
{
    let c = lend(state);
    let a = c.prompt_rename();
    state.filer = c.state;
    open_prompt(state, a);
    Ok(())
}

/// The sort choice, the current key selected.
pub fn prompt_sort(state: &mut AppState) -> (r: Result<(), String>)
    requires
        old(state).wf(),
    ensures
        r is Ok,
        final(state).wf(),
        final(state).filer == old(state).filer,
        final(state).prompt matches PromptMode::Select { title, selected_index, .. } && title@ == "Sort by"@
            && selected_index == crate::state::spec_sort_key_index(old(state).filer.sort_key),
        *final(state) == old(state).with_prompt(final(state).prompt),
{
    let c = lend(state);
    let a = c.prompt_sort();
    state.filer = c.state;
    open_prompt(state, a);
    Ok(())
}

/// An empty search that remembers the selected row.
pub fn prompt_search(state: &mut AppState) -> (r: Result<(), String>)
    requires
        old(state).wf(),
    ensures
        r is Ok,
        final(state).wf(),
        final(state).filer == old(state).filer,
        final(state).prompt matches PromptMode::Search { title, value, original_index, .. } && title@ == "Search"@
            && value@.len() == 0 && original_index == old(state).filer.selected,
        *final(state) == old(state).with_prompt(final(state).prompt),
{
    let c = lend(state);
    let a = c.prompt_search();
    state.filer = c.state;
    open_prompt(state, a);
    Ok(())
}

pub fn prompt_grep(state: &mut AppState) -> (r: Result<(), String>)
    requires
        old(state).wf(),
    ensures
        r is Ok,
        final(state).wf(),
        final(state).filer == old(state).filer,
        final(state).prompt matches PromptMode::Text { title, value, .. } && title@ == "Grep"@ && value@.len() == 0,
        *final(state) == old(state).with_prompt(final(state).prompt),
{
    let c = lend(state);
    let a = c.prompt_grep();
    state.filer = c.state;
    open_prompt(state, a);
    Ok(())
}

pub fn prompt_jump(state: &mut AppState) -> (r: Result<(), String>)
    requires
        old(state).wf(),
    ensures
        r is Ok,
        final(state).wf(),
        final(state).filer == old(state).filer,
        final(state).prompt matches PromptMode::File { title, value, .. } && title@ == "Jump"@
            && value@ == old(state).filer.current_dir.path@,
        *final(state) == old(state).with_prompt(final(state).prompt),
{
    let c = lend(state);
    let a = c.prompt_jump();
    state.filer = c.state;
    open_prompt(state, a);
    Ok(())
}

/// Hands the current directory to `launch`, which runs the user's shell
/// there.
pub fn launch_shell<L: Fn(&str) -> Result<(), String>>(state: &mut AppState, launch: &L) -> (r: Result<(), String>)
    requires
        old(state).wf(),
        forall|s: &str| call_requires(*launch, (s,)),
    ensures
        final(state).wf(),
        *final(state) == *old(state),
        exists|s: &str| s@ == old(state).filer.current_dir.path@ && #[trigger] call_ensures(*launch, (s,), r),
{
    let dir = state.filer.current_dir_path();
    let r = launch(dir);
    assert(call_ensures(*launch, (dir,), r));
    r
}

/// Bookmarks the selected file.
pub fn add_bookmark<S: Fn(&BookmarkStore) -> Result<(), String>>(state: &AppState, store: &mut RootStore, save: &S) -> (r: Result<(), String>)
    requires
        state.wf(),
        old(store).wf(),
        forall|b: &BookmarkStore| call_requires(*save, (b,)),
    ensures
        final(store).wf(),
        match state.filer.selected {
            Some(i) => final(store).bookmark.path_set() == old(store).bookmark.path_set().insert(state.filer.current_dir_files@[i as int].path@)
                && *final(store) == (RootStore { bookmark: final(store).bookmark, ..*old(store) })
                && call_ensures(*save, (&final(store).bookmark,), r),
            None => r is Ok && *final(store) == *old(store),
        },
{
    match state.filer.selected_file() {
        Some(f) => {
            store.bookmark.add(f.absolute_path());
            let saved = save(&store.bookmark);
            assert(call_ensures(*save, (&store.bookmark,), saved));
            saved
        },
        None => Ok(()),
    }
}

/// Removes the bookmark of the selected file.
pub fn remove_bookmark<S: Fn(&BookmarkStore) -> Result<(), String>>(state: &AppState, store: &mut RootStore, save: &S) -> (r: Result<(), String>)
    requires
        state.wf(),
        old(store).wf(),
        forall|b: &BookmarkStore| call_requires(*save, (b,)),
    ensures
        final(store).wf(),
        match state.filer.selected {
            Some(i) => final(store).bookmark.path_set() == old(store).bookmark.path_set().remove(state.filer.current_dir_files@[i as int].path@)
                && *final(store) == (RootStore { bookmark: final(store).bookmark, ..*old(store) })
                && call_ensures(*save, (&final(store).bookmark,), r),
            None => r is Ok && *final(store) == *old(store),
        },
{
    match state.filer.selected_file() {
        Some(f) => {
            store.bookmark.remove(f.absolute_path());
            let saved = save(&store.bookmark);
            assert(call_ensures(*save, (&store.bookmark,), saved));
            saved
        },
        None => Ok(()),
    }
}

/// Opens the bookmark list on the stored bookmarks.
pub fn show_bookmark(state: &mut AppState, store: &mut RootStore) -> (r: Result<(), String>)
    requires
        old(state).wf(),
    ensures
        r is Ok,
        final(state).wf(),
        *final(store) == *old(store),
        final(state).filer == old(state).filer,
        final(state).bookmark matches Some(l) && l.paths@ == old(store).bookmark.paths@,
        *final(state) == old(state).with_bookmark(final(state).bookmark),
{
    state.bookmark = Some(PathListState::new(store.bookmark.get_paths(), None));
    Ok(())
}

pub fn refresh_files(state: &mut AppState) -> (r: Result<(), String>)
    requires
        old(state).wf(),
    ensures
        r is Ok,
        final(state).wf(),
        final(state).filer.load_request matches Some(p) && p@ == old(state).filer.current_dir.path@,
        *final(state) == old(state).with_filer(final(state).filer),
{
    state.filer.refresh_files();
    Ok(())
}

/// Checks (or unchecks) the selected file and moves down.
pub fn toggle_checked_file(state: &mut AppState) -> (r: Result<(), String>)
    requires
        old(state).wf(),
    ensures
        r is Ok,
        final(state).wf(),
        final(state).filer.current_dir_files == old(state).filer.current_dir_files,
        final(state).filer.selected == spec_next(old(state).filer.selected, old(state).filer.current_dir_files@.len()),
        match old(state).filer.selected {
            Some(i) => views(final(state).filer.checked_paths@).to_set() == (
                if views(old(state).filer.checked_paths@).contains(old(state).filer.current_dir_files@[i as int].path@) {
                    views(old(state).filer.checked_paths@).to_set().remove(old(state).filer.current_dir_files@[i as int].path@)
                } else {
                    views(old(state).filer.checked_paths@).to_set().insert(old(state).filer.current_dir_files@[i as int].path@)
                }),
            None => final(state).filer.checked_paths == old(state).filer.checked_paths,
        },
        *final(state) == old(state).with_filer(
            old(state).filer.with_checked_paths(final(state).filer.checked_paths).with_selected(final(state).filer.selected)),
{
    state.filer.toggle_checked_file();
    state.filer.next();
    Ok(())
}

pub fn toggle_dot_files(state: &mut AppState) -> (r: Result<(), String>)
    requires
        old(state).wf(),
    ensures
        r is Ok,
        final(state).wf(),
        final(state).filer.show_dot_file == !old(state).filer.show_dot_file,
        *final(state) == old(state).with_filer(final(state).filer),
{
    state.filer.toggle_show_dot_file();
    Ok(())
}

} // verus!
