//! Commands of the confirmation dialog.
use vstd::prelude::*;
use crate::fs::file::VFile;
use crate::state::app_state::{AppState, ModalState};
use crate::text::owned;

verus! {

/// The files a deletion dialog asks about: the checked paths, else the
/// selected file, else none.
pub open spec fn delete_targets(checked: Seq<String>, selected: Option<VFile>) -> Option<Seq<Seq<char>>> {
    if checked.len() > 0 {
        Some(checked.map_values(|p: String| p@))
    } else {
        match selected {
            Some(f) => Some(seq![f.path@]),
            None => None,
        }
    }
}

/// The paths of `files`.
pub open spec fn paths_of(files: Seq<VFile>) -> Seq<Seq<char>> {
    files.map_values(|f: VFile| f.path@)
}

/// The message of the first failure among `outcomes`, if any failed.
pub open spec fn first_error(outcomes: Seq<Result<(), String>>) -> Option<String>
    decreases outcomes.len(),
{
    if outcomes.len() == 0 {
        None
    } else {
        match outcomes[0] {
            Err(e) => Some(e),
            Ok(_) => first_error(outcomes.drop_first()),
        }
    }
}

proof fn lemma_first_error_push(outcomes: Seq<Result<(), String>>, o: Result<(), String>)
    ensures
        first_error(outcomes.push(o)) == match first_error(outcomes) {
            Some(e) => Some(e),
            None => match o {
                Err(e) => Some(e),
                Ok(_) => None,
            },
        },
    decreases outcomes.len(),
{
    let pushed = outcomes.push(o);
    if outcomes.len() > 0 {
        assert(pushed.drop_first() =~= outcomes.drop_first().push(o));
        lemma_first_error_push(outcomes.drop_first(), o);
        assert(pushed[0] == outcomes[0]);
    } else {
        assert(pushed.drop_first() =~= Seq::<Result<(), String>>::empty());
        assert(first_error(pushed.drop_first()) is None);
        assert(pushed[0] == o);
    }
}

/// Opens the deletion dialog on the checked files, or on the selected one
/// when none is checked; with neither the dialog stays as it was.
pub fn open_delete_modal(state: &mut AppState) -> (r: Result<(), String>)
    requires
        old(state).wf(),
    ensures
        r is Ok,
        final(state).wf(),
        final(state).filer == old(state).filer,
        final(state).input == old(state).input,
        match delete_targets(old(state).filer.checked_paths@, match old(state).filer.selected {
            Some(i) => Some(old(state).filer.current_dir_files@[i as int]),
            None => None,
        }) {
            Some(paths) => final(state).modal matches ModalState::DeleteConfirm { files } && paths_of(files@) == paths,
            None => final(state).modal == old(state).modal,
        },
        old(state).filer.checked_paths@.len() > 0 ==> (final(state).modal matches ModalState::DeleteConfirm { files }
            && files@.len() == old(state).filer.checked_paths@.len()
            && forall|j: int| 0 <= j < files@.len() ==> (#[trigger] files@[j]).path@ == old(state).filer.checked_paths@[j]@
                && files@[j].metadata is None),
        old(state).filer.checked_paths@.len() == 0 ==> (old(state).filer.selected matches Some(i) ==> (
            final(state).modal matches ModalState::DeleteConfirm { files } && files@ == seq![old(state).filer.current_dir_files@[i as int]])),
        *final(state) == old(state).with_modal(final(state).modal),
{
    let n = state.filer.checked_paths.len();
    if n == 0 {
        match state.filer.selected_file() {
            Some(f) => {
                let mut files: Vec<VFile> = Vec::new();
                files.push(f.duplicate());
                assert(paths_of(files@) =~= seq![files@[0].path@]);
                state.modal = ModalState::DeleteConfirm { files };
            },
            None => {},
        }
    } else {
        let mut files: Vec<VFile> = Vec::new();
        let mut i: usize = 0;
        while i < n
            invariant
                n == state.filer.checked_paths@.len(),
                i <= n,
                files@.len() == i,
                forall|j: int| 0 <= j < i ==> (#[trigger] files@[j]).path@ == state.filer.checked_paths@[j]@
                    && files@[j].metadata is None,
            decreases n - i,
        {
            files.push(VFile::new(owned(state.filer.checked_paths[i].as_str()), None));
            i += 1;
        }
        assert(paths_of(files@) =~= state.filer.checked_paths@.map_values(|p: String| p@));
        state.modal = ModalState::DeleteConfirm { files };
    }
    Ok(())
}

/// Confirms the dialog: each file is handed to `delete`, all of them even
/// after a failure, then the list is refreshed; the first failure is
/// returned. The dialog closes.
pub fn modal_confirm<D: Fn(&VFile) -> Result<(), String>>(state: &mut AppState, delete: &D) -> (r: Result<(), String>)
    requires
        old(state).wf(),
        forall|f: &VFile| call_requires(*delete, (f,)),
    ensures
        final(state).wf(),
        final(state).modal is Closed,
        final(state).input == old(state).input,
        old(state).modal is Closed ==> r is Ok && *final(state) == *old(state),
        *final(state) == old(state).with_modal(ModalState::Closed).with_filer(final(state).filer),
        old(state).modal matches ModalState::DeleteConfirm { files } ==> exists|outcomes: Seq<Result<(), String>>| {
            &&& #[trigger] outcomes.len() == files@.len()
            &&& forall|j: int| 0 <= j < files@.len() ==> call_ensures(*delete, (&files@[j],), #[trigger] outcomes[j])
            &&& (r is Ok <==> first_error(outcomes) is None)
            &&& (first_error(outcomes) matches Some(e) ==> r == Err::<(), String>(e))
        },
        old(state).modal is DeleteConfirm ==> (final(state).filer.load_request matches Some(p) && p@ == old(state).filer.current_dir.path@)
            && final(state).filer.current_dir == old(state).filer.current_dir
            && final(state).filer.checked_paths == old(state).filer.checked_paths,
{
    let mut modal = ModalState::Closed;
    std::mem::swap(&mut modal, &mut state.modal);
    match modal {
        ModalState::DeleteConfirm { files } => {
            let mut error: Option<String> = None;
            let ghost mut outcomes: Seq<Result<(), String>> = Seq::empty();
            let mut i: usize = 0;
            while i < files.len()
                invariant
                    i <= files@.len(),
                    outcomes.len() == i,
                    forall|f: &VFile| call_requires(*delete, (f,)),
                    forall|j: int| 0 <= j < i ==> call_ensures(*delete, (&files@[j],), #[trigger] outcomes[j]),
                    first_error(outcomes) == error,
                decreases files@.len() - i,
            {
                let o = delete(&files[i]);
                proof {
                    lemma_first_error_push(outcomes, o);
                    outcomes = outcomes.push(o);
                }
                match o {
                    Ok(()) => {},
                    Err(e) => {
                        if error.is_none() {
                            error = Some(e);
                        }
                    },
                }
                i += 1;
            }
            state.filer.refresh_files();
            let r = match error {
                Some(e) => Err(e),
                None => Ok(()),
            };
            assert(outcomes.len() == files@.len());
            r
        },
        ModalState::Closed => Ok(()),
    }
}

/// Closes the dialog.
pub fn modal_cancel(state: &mut AppState) -> (r: Result<(), String>)
    ensures
        r is Ok,
        final(state).modal is Closed,
        final(state).filer == old(state).filer,
        final(state).input == old(state).input,
        *final(state) == old(state).with_modal(ModalState::Closed),
{
    state.modal = ModalState::Closed;
    Ok(())
}

} // verus!
