//! Carrying out a confirmed prompt on the application state.
use vstd::prelude::*;
use crate::component::prompt::{is_plain_name, said, PromptEffect};
use crate::fs::async_job::FileJob;
use crate::fs::file::{spec_plan_in_dir, spec_plan_rename};
use crate::path::{spec_all_normal, spec_join};
use crate::state::app_state::AppState;
use crate::state::{spec_sort_key_at, ConfirmAction, FileAction, Phase, PromptMode, SelectAction, SortKey, TextAction};
use crate::text::{owned, push_str};

verus! {

/// Carries out a confirmed prompt (`input`): a deletion, copy, move, zip
/// or unzip becomes a job; a new directory or file, a rename or a grep
/// becomes outside work for the caller; a jump goes to the typed directory
/// (`is_dir` says whether it is one); a sort choice re-sorts the list.
/// Afterwards the checks are cleared, except after sorting or a refused
/// input.
pub fn execute_prompt_action<D: Fn(&str) -> bool>(state: &mut AppState, input: PromptMode, is_dir: &D) -> (r: Result<PromptEffect, String>)
    requires
        old(state).wf(),
        forall|s: &str| call_requires(*is_dir, (s,)),
    ensures
        final(state).wf(),
        final(state).input == old(state).input,
        final(state).side_panel == old(state).side_panel,
        r is Ok && !(input matches PromptMode::Select { action: SelectAction::Sort, .. }) ==> final(state).filer.checked_paths@.len() == 0,
        input matches PromptMode::Text { action, value, .. } ==> match *action {
            TextAction::Mkdir { dir } => match spec_plan_in_dir(dir.path@, value@, "dir name"@) {
                Ok(Some(p)) => r matches Ok(PromptEffect::CreateDir(q)) && q@ == p,
                Ok(None) => r matches Ok(PromptEffect::Nothing),
                Err(m) => r matches Err(e) && e@ == m,
            },
            TextAction::Touch { dir } => match spec_plan_in_dir(dir.path@, value@, "file name"@) {
                Ok(Some(p)) => r matches Ok(PromptEffect::CreateFile(q)) && q@ == p,
                Ok(None) => r matches Ok(PromptEffect::Nothing),
                Err(m) => r matches Err(e) && e@ == m,
            },
            TextAction::Symlink { dir, target } => match spec_plan_in_dir(dir.path@, value@, "link name"@) {
                Ok(Some(p)) => r matches Ok(PromptEffect::CreateSymlink { link, target: t }) && link@ == p && t@ == target.path@,
                Ok(None) => r matches Ok(PromptEffect::Nothing),
                Err(m) => r matches Err(e) && e@ == m,
            },
            TextAction::Rename { file } => match spec_plan_rename(file.path@, value@) {
                Ok(Some(p)) => (r matches Ok(PromptEffect::Rename { from, to }) && from@ == file.path@ && to@ == p)
                    && (final(state).filer.pending_select_name matches Some(n) && n@ == value@),
                Ok(None) => r matches Ok(PromptEffect::Nothing),
                Err(m) => r matches Err(e) && e@ == m,
            },
            TextAction::Zip { dir, files } => if !is_plain_name(value@) {
                r matches Err(e) && e@ == value@ + ": Invalid zip name"@
            } else {
                r matches Ok(PromptEffect::StartJob { prepare_dir: None, job: FileJob::ZipCreate { dir: d, name, files: fs }, phase })
                    && d == dir && name@ == value@ && fs@ == files@ && phase == Phase::Scanning
            },
            TextAction::Unzip { file, dir } => if !spec_all_normal(value@) {
                r matches Err(e) && e@ == value@ + ": Invalid directory name"@
            } else {
                r matches Ok(PromptEffect::StartJob { prepare_dir: Some(p), job: FileJob::ZipExtract { file: f, dest }, phase })
                    && p@ == spec_join(dir.path@, value@) && dest@ == p@ && f == file && phase == Phase::Extracting
            },
            TextAction::Grep => if value@.len() == 0 {
                r matches Ok(PromptEffect::Nothing)
            } else {
                r matches Ok(PromptEffect::Grep { dir, pattern }) && dir@ == old(state).filer.current_dir.path@ && pattern@ == value@
            },
            TextAction::Execute { .. } => r matches Ok(PromptEffect::Nothing),
            TextAction::Filter => (r matches Ok(PromptEffect::Nothing)) && final(state).filer.filter@ == value@
                && (final(state).filer.load_request matches Some(p) && p@ == old(state).filer.current_dir.path@),
        },
        input matches PromptMode::File { action, value, .. } ==> match action {
            FileAction::Copy { files } => r matches Ok(PromptEffect::StartJob { prepare_dir: None, job: FileJob::Copy { files: fs, dest }, phase })
                && fs@ == files@ && dest@ == value@ && phase == Phase::Scanning,
            FileAction::Move { files } => r matches Ok(PromptEffect::StartJob { prepare_dir: None, job: FileJob::Move { files: fs, dest }, phase })
                && fs@ == files@ && dest@ == value@ && phase == Phase::Moving,
            FileAction::Jump => (r matches Err(e) ==> said(*is_dir, value@, false) && e@ == value@ + " はディレクトリではありません"@)
                && (r is Ok ==> said(*is_dir, value@, true) && (r matches Ok(PromptEffect::Nothing)) && final(state).filer.current_dir.path@ == value@),
        },
        input matches PromptMode::Confirm { action: ConfirmAction::Delete { files }, .. } ==> (
            r matches Ok(PromptEffect::StartJob { prepare_dir: None, job: FileJob::Delete { files: fs }, phase }) && fs@ == files@ && phase == Phase::Scanning),
        input matches PromptMode::Select { action: SelectAction::Sort, selected_index, .. } ==> ((r matches Ok(PromptEffect::Nothing)) && match spec_sort_key_at(selected_index as nat) {
            Some(k) => final(state).filer.sort_key == k && final(state).filer.load_request is Some,
            None => final(state).filer == old(state).filer,
        }),
        (input is Idle || input is Error || input is Search || input is Progress) ==> r matches Ok(PromptEffect::Nothing),
        input matches PromptMode::Select { action: SelectAction::Sort, .. } ==> final(state).filer.checked_paths == old(state).filer.checked_paths,
        r is Err ==> *final(state) == *old(state),
        *final(state) == old(state).with_filer(final(state).filer),
        (input is Idle || input is Error || input is Search || input is Progress) ==> *final(state) == old(state).with_filer(
            old(state).filer.with_checked_paths(final(state).filer.checked_paths)),
{
    proof {
        reveal_strlit("dir name");
        reveal_strlit("file name");
        reveal_strlit("link name");
        assert("link name"@ =~= seq!['l', 'i', 'n', 'k', ' ', 'n', 'a', 'm', 'e']);
    }
    let skip_clear = match &input {
        PromptMode::Select { action: SelectAction::Sort, .. } => true,
        _ => false,
    };
    let effect = match input {
        PromptMode::Confirm { action, .. } => match action {
            ConfirmAction::Delete { files } => PromptEffect::StartJob { prepare_dir: None, job: FileJob::Delete { files }, phase: Phase::Scanning },
        },
        PromptMode::Text { action, value, .. } => {
            let value = value.as_str();
            match *action {
                TextAction::Mkdir { dir } => match dir.plan_create_dir(value) {
                    Ok(Some(p)) => PromptEffect::CreateDir(p),
                    Ok(None) => PromptEffect::Nothing,
                    Err(e) => {
                        return Err(e);
                    },
                },
                TextAction::Touch { dir } => match dir.plan_create_file(value) {
                    Ok(Some(p)) => PromptEffect::CreateFile(p),
                    Ok(None) => PromptEffect::Nothing,
                    Err(e) => {
                        return Err(e);
                    },
                },
                TextAction::Symlink { dir, target } => match dir.plan_create_symlink(value) {
                    Ok(Some(p)) => PromptEffect::CreateSymlink { link: p, target: owned(target.absolute_path()) },
                    Ok(None) => PromptEffect::Nothing,
                    Err(e) => {
                        return Err(e);
                    },
                },
                TextAction::Rename { file } => match file.plan_rename(value) {
                    Ok(Some(p)) => {
                        state.filer.set_pending_select_name(owned(value));
                        PromptEffect::Rename { from: owned(file.absolute_path()), to: p }
                    },
                    Ok(None) => PromptEffect::Nothing,
                    Err(e) => {
                        return Err(e);
                    },
                },
                TextAction::Zip { dir, files } => {
                    if value.unicode_len() == 0 || !crate::path::all_normal(value) {
                        let mut e = owned(value);
                        push_str(&mut e, ": Invalid zip name");
                        return Err(e);
                    }
                    PromptEffect::StartJob { prepare_dir: None, job: FileJob::ZipCreate { dir, name: owned(value), files }, phase: Phase::Scanning }
                },
                TextAction::Unzip { file, dir } => {
                    if !crate::path::all_normal(value) {
                        let mut e = owned(value);
                        push_str(&mut e, ": Invalid directory name");
                        return Err(e);
                    }
                    let dest = crate::path::join(dir.absolute_path(), value);
                    let job_dest = dest.clone();
                    PromptEffect::StartJob { prepare_dir: Some(dest), job: FileJob::ZipExtract { file, dest: job_dest }, phase: Phase::Extracting }
                },
                TextAction::Grep => {
                    if value.unicode_len() == 0 {
                        PromptEffect::Nothing
                    } else {
                        PromptEffect::Grep { dir: owned(state.filer.current_dir_path()), pattern: owned(value) }
                    }
                },
                TextAction::Execute { .. } => PromptEffect::Nothing,
                TextAction::Filter => {
                    state.filer.set_filter(owned(value));
                    PromptEffect::Nothing
                },
            }
        },
        PromptMode::File { action, value, .. } => match action {
            FileAction::Copy { files } => PromptEffect::StartJob { prepare_dir: None, job: FileJob::Copy { files, dest: value }, phase: Phase::Scanning },
            FileAction::Move { files } => PromptEffect::StartJob { prepare_dir: None, job: FileJob::Move { files, dest: value }, phase: Phase::Moving },
            FileAction::Jump => {
                let d = is_dir(value.as_str());
                assert(said(*is_dir, value@, d));
                if !d {
                    let mut e = owned(value.as_str());
                    push_str(&mut e, " はディレクトリではありません");
                    return Err(e);
                }
                state.filer.change_to(value.as_str());
                PromptEffect::Nothing
            },
        },
        PromptMode::Select { action, selected_index, .. } => match action {
            SelectAction::Sort => {
                match SortKey::at(selected_index) {
                    Some(k) => {
                        state.filer.sort_key = k;
                        state.filer.refresh_files();
                    },
                    None => {},
                }
                PromptEffect::Nothing
            },
        },
        _ => PromptEffect::Nothing,
    };
    if !skip_clear {
        state.filer.clear_checked_paths();
    }
    Ok(effect)
}

} // verus!
