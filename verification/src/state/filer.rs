//! The file list of one directory: what is shown, in which order, which
//! row is selected and which files are checked. Listing a directory is work
//! for another thread: a change of directory leaves a request behind, the
//! caller starts the listing and hands over the channel its result arrives
//! on, and `receive_files` takes the result in.
use std::sync::mpsc::Receiver;
use vstd::prelude::*;
use crate::fs::file::VFile;
use crate::jobs::{try_receive, Received};
use crate::path::{spec_file_name, spec_parent};
use crate::search::{bwd, contains_ci, contains_ignore_ascii_case, find_backward, find_forward, first_backward, first_forward, fwd, none_match};
use crate::sort::{files_sorted, name_of, name_of_exec, sort_files};
use crate::state::table_cursor::{self, in_range, spec_clamp, spec_first, spec_last, spec_next, spec_prev};
use crate::state::SortKey;
use crate::text::{owned, str_eq, views};

verus! {

/// No path is checked twice.
pub open spec fn no_dups(s: Seq<Seq<char>>) -> bool {
    forall|i: int, j: int| 0 <= i < j < s.len() ==> #[trigger] s[i] != #[trigger] s[j]
}

/// The paths of the listed files.
pub open spec fn listed_paths(files: Seq<VFile>) -> Set<Seq<char>> {
    Set::new(|p: Seq<char>| exists|j: int| 0 <= j < files.len() && files[j].path@ == p)
}

/// A dot file: its name starts with `.`.
pub open spec fn is_dot_file(f: VFile) -> bool {
    name_of(f).len() > 0 && name_of(f)[0] == '.'
}

/// The files a listing shows: all of them, or those that are not dot files.
pub open spec fn visible(files: Seq<VFile>, show_dot_file: bool) -> Seq<VFile> {
    files.filter(|f: VFile| show_dot_file || !is_dot_file(f))
}

/// `k` is the first row whose file is named `name`.
pub open spec fn name_position(files: Seq<VFile>, name: Seq<char>, k: int) -> bool {
    &&& 0 <= k < files.len()
    &&& name_of(files[k]) == name
    &&& forall|j: int| 0 <= j < k ==> name_of(#[trigger] files[j]) != name
}

/// The selection kept across a reload: the old row, or the last row when
/// the list got shorter; the first row when nothing was selected.
pub open spec fn kept_selection(sel: Option<usize>, len: nat) -> Option<usize> {
    match sel {
        Some(_) => spec_clamp(sel, len),
        None => spec_first(len),
    }
}

/// The names of the files, in order.
pub open spec fn names_of(files: Seq<VFile>) -> Seq<Seq<char>> {
    Seq::new(files.len(), |i: int| name_of(files[i]))
}

/// Where a search starts: the selected row, or the first.
pub open spec fn search_start(sel: Option<usize>) -> int {
    match sel {
        Some(s) => s as int,
        None => 0,
    }
}

/// Where a backward search starts: the selected row, or the last.
pub open spec fn back_search_start(sel: Option<usize>, len: nat) -> int {
    match sel {
        Some(s) => s as int,
        None => len - 1,
    }
}

/// A search for the next or previous match skips the selected row itself
/// (it comes last); with no selection nothing is skipped.
pub open spec fn search_skip(sel: Option<usize>) -> int {
    match sel {
        Some(_) => 1,
        None => 0,
    }
}

/// The message shown when a listing's thread ends without a result.
pub open spec fn listing_lost_message() -> Seq<char> {
    "Directory listing stopped unexpectedly"@
}

/// `after` shows the listing `files` on `before`: dot files only when they
/// are shown, in the order of the sort key; the waiting name is selected
/// where it is listed, otherwise the selection is kept in range.
pub open spec fn listing_applied(before: FilerState, files: Seq<VFile>, after: FilerState) -> bool {
    &&& files_sorted(after.current_dir_files@, before.sort_key)
    &&& after.current_dir_files@.to_multiset() == filtered(visible(files, before.show_dot_file), before.filter@).to_multiset()
    &&& after.filter == before.filter
    &&& after.pending_select_name is None
    &&& (before.pending_select_name matches Some(n) ==> (forall|k: int| #[trigger] name_position(after.current_dir_files@, n@, k)
        ==> after.selected == Some(k as usize)))
    &&& ((before.pending_select_name matches Some(n) ==> (forall|k: int| !#[trigger] name_position(after.current_dir_files@, n@, k)))
        || before.pending_select_name is None ==> after.selected == kept_selection(before.selected, after.current_dir_files@.len()))
    &&& after.checked_paths == before.checked_paths
    &&& after.current_dir == before.current_dir
    &&& after.sort_key == before.sort_key
    &&& after.show_dot_file == before.show_dot_file
    &&& after.load_request == before.load_request
}

/// The selection a forward search for `value` leaves: unchanged when no
/// name matches, else the first matching row from the start row on
/// (skipping `skip` rows, going round).
pub open spec fn found_forward(files: Seq<VFile>, value: Seq<char>, sel: Option<usize>, skip: int, after: Option<usize>) -> bool {
    &&& none_match(names_of(files), value) ==> after == sel
    &&& !none_match(names_of(files), value) ==> exists|k: int|
        #[trigger] first_forward(names_of(files), value, search_start(sel), skip, k)
        && after == Some(fwd(search_start(sel), k, files.len() as int) as usize)
}

/// The selection a backward search for `value` leaves.
pub open spec fn found_backward(files: Seq<VFile>, value: Seq<char>, sel: Option<usize>, after: Option<usize>) -> bool {
    &&& none_match(names_of(files), value) ==> after == sel
    &&& !none_match(names_of(files), value) ==> exists|k: int|
        #[trigger] first_backward(names_of(files), value, back_search_start(sel, files.len()), search_skip(sel), k)
        && after == Some(bwd(back_search_start(sel, files.len()), k, files.len() as int) as usize)
}

pub struct FilerState {
    pub current_dir: VFile,
    pub current_dir_files: Vec<VFile>,
    pub checked_paths: Vec<String>,
    pub selected: Option<usize>,
    pub sort_key: SortKey,
    pub show_dot_file: bool,
    /// Only files whose names contain this text (ASCII letters in either
    /// case) are listed; every file when it is empty.
    pub filter: String,
    /// The name to select when the next listing arrives.
    pub pending_select_name: Option<String>,
    /// A directory whose listing the caller is to start.
    pub load_request: Option<String>,
    /// The listing in progress.
    pub loading: Option<Receiver<Result<Vec<VFile>, String>>>,
    /// The last listing error, until it is taken.
    pub error: Option<String>,
}

fn file_names(files: &Vec<VFile>) -> (r: Vec<String>)
    ensures
        views(r@) == names_of(files@),
{
    let mut out: Vec<String> = Vec::new();
    let mut i: usize = 0;
    while i < files.len()
        invariant
            i <= files@.len(),
            out@.len() == i,
            forall|j: int| 0 <= j < i ==> (#[trigger] out@[j])@ == name_of(files@[j]),
        decreases files@.len() - i,
    {
        out.push(name_of_exec(&files[i]));
        i += 1;
    }
    assert(views(out@) =~= names_of(files@));
    out
}

/// The files whose names contain `q`, ASCII letters compared without
/// regard to case (every file when `q` is empty).
pub open spec fn filtered(files: Seq<VFile>, q: Seq<char>) -> Seq<VFile> {
    files.filter(|f: VFile| contains_ci(name_of(f), q))
}

/// The files whose names contain `q` (see `filtered`).
pub fn filter_files(files: Vec<VFile>, q: &str) -> (r: Vec<VFile>)
    ensures
        r@ == filtered(files@, q@),
{
    let ghost pred = |f: VFile| contains_ci(name_of(f), q@);
    let mut kept: Vec<VFile> = Vec::new();
    let mut i: usize = 0;
    assert(files@.subrange(0, 0) =~= Seq::<VFile>::empty());
    proof {
        reveal(Seq::filter);
    }
    while i < files.len()
        invariant
            i <= files@.len(),
            pred == (|f: VFile| contains_ci(name_of(f), q@)),
            kept@ == files@.subrange(0, i as int).filter(pred),
        decreases files@.len() - i,
    {
        let ghost s = files@.subrange(0, i as int);
        assert(files@.subrange(0, i + 1) =~= s.push(files@[i as int]));
        assert(s.push(files@[i as int]).drop_last() =~= s);
        proof {
            reveal(Seq::filter);
        }
        if contains_ignore_ascii_case(name_of_exec(&files[i]).as_str(), q) {
            kept.push(files[i].duplicate());
        }
        i += 1;
    }
    assert(files@.subrange(0, files@.len() as int) =~= files@);
    kept
}

/// The files a listing shows (see `visible`).
pub fn visible_files(files: Vec<VFile>, show_dot_file: bool) -> (r: Vec<VFile>)
    ensures
        r@ == visible(files@, show_dot_file),
{
    let show = show_dot_file;
    let ghost pred = |f: VFile| show || !is_dot_file(f);
    let mut kept: Vec<VFile> = Vec::new();
    let mut i: usize = 0;
    assert(files@.subrange(0, 0) =~= Seq::<VFile>::empty());
    proof {
        reveal(Seq::filter);
    }
    while i < files.len()
        invariant
            i <= files@.len(),
            pred == (|f: VFile| show || !is_dot_file(f)),
            kept@ == files@.subrange(0, i as int).filter(pred),
        decreases files@.len() - i,
    {
        let ghost s = files@.subrange(0, i as int);
        assert(files@.subrange(0, i + 1) =~= s.push(files@[i as int]));
        assert(s.push(files@[i as int]).drop_last() =~= s);
        proof {
            reveal(Seq::filter);
        }
        if show || !is_dot_file_exec(&files[i]) {
            kept.push(files[i].duplicate());
        }
        i += 1;
    }
    assert(files@.subrange(0, files@.len() as int) =~= files@);
    kept
}

fn has_name(f: &VFile, name: &str) -> (r: bool)
    ensures
        r == (name_of(*f) == name@),
{
    str_eq(name_of_exec(f).as_str(), name)
}

fn is_dot_file_exec(f: &VFile) -> (r: bool)
    ensures
        r == is_dot_file(*f),
{
    let n = crate::text::chars_of(name_of_exec(f).as_str());
    n.len() > 0 && n[0] == '.'
}

impl FilerState {
    /// The selection is a row of the list and no path is checked twice.
    pub open spec fn wf(&self) -> bool {
        &&& in_range(self.selected, self.current_dir_files@.len())
        &&& no_dups(views(self.checked_paths@))
    }

    /// The list with only its checked paths replaced.
    pub open spec fn with_checked_paths(self, c: Vec<String>) -> FilerState {
        FilerState { checked_paths: c, ..self }
    }

    /// The list with only its selection replaced.
    pub open spec fn with_selected(self, sel: Option<usize>) -> FilerState {
        FilerState { selected: sel, ..self }
    }

    pub open spec fn is_loading_spec(&self) -> bool {
        self.load_request is Some || self.loading is Some
    }

    /// An empty list of no directory.
    pub fn new() -> (r: FilerState)
        ensures
            r.wf(),
            r.current_dir_files@.len() == 0,
            r.selected is None,
            r.checked_paths@.len() == 0,
            r.sort_key == SortKey::Name,
            !r.show_dot_file,
            r.load_request is None,
            r.loading is None,
            r.error is None,
            r.current_dir.path@.len() == 0,
            r.current_dir.metadata is None,
            r.pending_select_name is None,
            r.filter@.len() == 0,
    {
        FilerState {
            current_dir: VFile::new(String::new(), None),
            current_dir_files: Vec::new(),
            checked_paths: Vec::new(),
            selected: None,
            sort_key: SortKey::Name,
            show_dot_file: false,
            filter: String::new(),
            pending_select_name: None,
            load_request: None,
            loading: None,
            error: None,
        }
    }

    pub fn current_dir_path(&self) -> (r: &str)
        ensures
            r@ == self.current_dir.path@,
    {
        self.current_dir.absolute_path()
    }

    /// Goes to the directory `path`: the list empties, nothing is checked,
    /// and its listing is requested.
    pub fn change_to(&mut self, path: &str)
        ensures
            final(self).wf(),
            final(self).current_dir.path@ == path@,
            final(self).current_dir.metadata is None,
            final(self).current_dir_files@.len() == 0,
            final(self).selected is None,
            final(self).checked_paths@.len() == 0,
            final(self).pending_select_name is None,
            final(self).load_request matches Some(p) && p@ == path@,
            final(self).loading is None,
            final(self).sort_key == old(self).sort_key,
            final(self).show_dot_file == old(self).show_dot_file,
            final(self).error == old(self).error,
    {
        self.current_dir = VFile::new(owned(path), None);
        self.current_dir_files = Vec::new();
        self.selected = None;
        self.checked_paths = Vec::new();
        self.pending_select_name = None;
        self.load_request = Some(owned(path));
        self.loading = None;
    }

    /// Reads the current directory again; the row of the selected file is
    /// selected again when the listing arrives (unless another name is
    /// already waiting to be selected).
    pub fn refresh_files(&mut self)
        requires
            old(self).wf(),
        ensures
            final(self).wf(),
            final(self).current_dir == old(self).current_dir,
            final(self).current_dir_files == old(self).current_dir_files,
            final(self).selected == old(self).selected,
            final(self).checked_paths == old(self).checked_paths,
            final(self).load_request matches Some(p) && p@ == old(self).current_dir.path@,
            old(self).pending_select_name is Some ==> final(self).pending_select_name == old(self).pending_select_name,
            old(self).pending_select_name is None ==> match old(self).selected {
                Some(i) => final(self).pending_select_name matches Some(n) && n@ == name_of(old(self).current_dir_files@[i as int]),
                None => final(self).pending_select_name is None,
            },
            final(self).sort_key == old(self).sort_key,
            final(self).show_dot_file == old(self).show_dot_file,
            final(self).filter == old(self).filter,
            final(self).error == old(self).error,
    {
        if self.pending_select_name.is_none() {
            match self.selected {
                Some(i) => {
                    self.pending_select_name = Some(name_of_exec(&self.current_dir_files[i]));
                },
                None => {},
            }
        }
        self.load_request = Some(owned(self.current_dir.absolute_path()));
    }

    /// The directory whose listing is to be started, handed over once.
    pub fn take_load_request(&mut self) -> (r: Option<String>)
        ensures
            r == old(self).load_request,
            final(self).load_request is None,
            final(self).current_dir_files == old(self).current_dir_files,
            final(self).selected == old(self).selected,
            final(self).checked_paths == old(self).checked_paths,
            final(self).loading == old(self).loading,
            final(self).current_dir == old(self).current_dir,
    {
        let r = self.load_request.take();
        r
    }

    /// Follows a listing started for the last request.
    pub fn start_loading(&mut self, rx: Receiver<Result<Vec<VFile>, String>>)
        ensures
            final(self).loading == Some(rx),
            final(self).load_request == old(self).load_request,
            final(self).current_dir_files == old(self).current_dir_files,
            final(self).selected == old(self).selected,
            final(self).checked_paths == old(self).checked_paths,
            final(self).current_dir == old(self).current_dir,
    {
        self.loading = Some(rx);
    }

    pub fn is_loading(&self) -> (r: bool)
        ensures
            r == self.is_loading_spec(),
    {
        self.load_request.is_some() || self.loading.is_some()
    }

    /// The last listing error, handed over once.
    pub fn take_error(&mut self) -> (r: Option<String>)
        ensures
            r == old(self).error,
            final(self).error is None,
            final(self).current_dir_files == old(self).current_dir_files,
            final(self).selected == old(self).selected,
            final(self).checked_paths == old(self).checked_paths,
    {
        self.error.take()
    }

    /// Shows a listing: dot files only when they are shown, in the order of
    /// the sort key; the waiting name is selected where it is listed,
    /// otherwise the selection is kept in range.
    pub fn apply_listing(&mut self, files: Vec<VFile>)
        requires
            old(self).wf(),
        ensures
            final(self).wf(),
            listing_applied(*old(self), files@, *final(self)),
            final(self).loading == old(self).loading,
            final(self).error == old(self).error,
    {
        let shown = visible_files(files, self.show_dot_file);
        let kept = filter_files(shown, self.filter.as_str());
        let sorted = sort_files(kept, self.sort_key);
        let len = sorted.len();
        let mut sel = match self.selected {
            Some(_) => table_cursor::clamp(self.selected, len),
            None => table_cursor::first(len),
        };
        let pending = self.pending_select_name.take();
        match pending {
            Some(name) => {
                let mut k: usize = 0;
                while k < sorted.len() && !has_name(&sorted[k], name.as_str())
                    invariant
                        k <= sorted@.len(),
                        forall|j: int| 0 <= j < k ==> name_of(#[trigger] sorted@[j]) != name@,
                    decreases sorted@.len() - k,
                {
                    k += 1;
                }
                if k < sorted.len() {
                    sel = Some(k);
                    proof {
                        assert(name_position(sorted@, name@, k as int));
                        assert forall|m: int| #[trigger] name_position(sorted@, name@, m) implies m == k by {
                            if m < k {
                                assert(name_of(sorted@[m]) != name@);
                            } else if m > k {
                                assert(name_of(sorted@[k as int]) != name@);
                            }
                        }
                    }
                } else {
                    assert forall|m: int| !#[trigger] name_position(sorted@, name@, m) by {
                        if 0 <= m < sorted@.len() {
                            assert(name_of(sorted@[m]) != name@);
                        }
                    }
                }
            },
            None => {},
        }
        self.current_dir_files = sorted;
        self.selected = sel;
    }

    /// What taking in `received` makes of the list (see `take_listing`).
    pub open spec fn listing_taken(before: Self, received: Received<Result<Vec<VFile>, String>>, after: Self) -> bool {
        match received {
            Received::Message(Ok(files)) => after.loading is None && after.error == before.error
                && listing_applied(before, files@, after),
            Received::Message(Err(e)) => after.loading is None && after.error == Some(e)
                && after.current_dir_files == before.current_dir_files && after.selected == before.selected,
            Received::Empty => after == before,
            Received::Disconnected => after.loading is None
                && (after.error matches Some(e) && e@ == "Directory listing stopped unexpectedly"@)
                && after.current_dir_files == before.current_dir_files && after.selected == before.selected,
        }
    }

    /// Takes in one receive of the listing: a listing is shown (see
    /// `listing_applied`), a failed listing leaves its error, a listing
    /// whose thread is gone leaves an error too; nothing arrived leaves all
    /// as it is.
    pub fn take_listing(&mut self, received: Received<Result<Vec<VFile>, String>>)
        requires
            old(self).wf(),
        ensures
            final(self).wf(),
            Self::listing_taken(*old(self), received, *final(self)),
            final(self).current_dir == old(self).current_dir,
            final(self).sort_key == old(self).sort_key,
            final(self).show_dot_file == old(self).show_dot_file,
            final(self).load_request == old(self).load_request,
            final(self).checked_paths == old(self).checked_paths,
    {
        match received {
            Received::Message(Ok(files)) => {
                self.loading = None;
                self.apply_listing(files);
            },
            Received::Message(Err(e)) => {
                self.loading = None;
                self.error = Some(e);
            },
            Received::Empty => {},
            Received::Disconnected => {
                self.loading = None;
                self.error = Some(owned("Directory listing stopped unexpectedly"));
            },
        }
    }

    /// Takes in the listing if it has arrived (see `take_listing`).
    pub fn receive_files(&mut self)
        requires
            old(self).wf(),
        ensures
            final(self).wf(),
            old(self).loading is None ==> *final(self) == *old(self),
            final(self).current_dir == old(self).current_dir,
            final(self).sort_key == old(self).sort_key,
            final(self).show_dot_file == old(self).show_dot_file,
            final(self).load_request == old(self).load_request,
            final(self).loading is Some ==> *final(self) == *old(self),
            final(self).checked_paths == old(self).checked_paths,
            old(self).loading is Some ==> exists|x: Received<Result<Vec<VFile>, String>>| Self::listing_taken(*old(self), x, *final(self)),
    {
        let received = match &self.loading {
            Some(rx) => try_receive(rx),
            None => {
                return;
            },
        };
        self.take_listing(received);
    }

    pub fn prev(&mut self)
        requires
            old(self).wf(),
        ensures
            final(self).wf(),
            final(self).selected == spec_prev(old(self).selected, old(self).current_dir_files@.len()),
            final(self).current_dir_files == old(self).current_dir_files,
            final(self).checked_paths == old(self).checked_paths,
            final(self).current_dir == old(self).current_dir,
            *final(self) == old(self).with_selected(final(self).selected),
    {
        self.selected = table_cursor::prev(self.selected, self.current_dir_files.len());
    }

    pub fn next(&mut self)
        requires
            old(self).wf(),
        ensures
            final(self).wf(),
            final(self).selected == spec_next(old(self).selected, old(self).current_dir_files@.len()),
            final(self).current_dir_files == old(self).current_dir_files,
            final(self).checked_paths == old(self).checked_paths,
            final(self).current_dir == old(self).current_dir,
            *final(self) == old(self).with_selected(final(self).selected),
    {
        self.selected = table_cursor::next(self.selected, self.current_dir_files.len());
    }

    pub fn first(&mut self)
        requires
            old(self).wf(),
        ensures
            final(self).wf(),
            final(self).selected == spec_first(old(self).current_dir_files@.len()),
            final(self).current_dir_files == old(self).current_dir_files,
            final(self).checked_paths == old(self).checked_paths,
            final(self).current_dir == old(self).current_dir,
            *final(self) == old(self).with_selected(final(self).selected),
    {
        self.selected = table_cursor::first(self.current_dir_files.len());
    }

    pub fn last(&mut self)
        requires
            old(self).wf(),
        ensures
            final(self).wf(),
            final(self).selected == spec_last(old(self).current_dir_files@.len()),
            final(self).current_dir_files == old(self).current_dir_files,
            final(self).checked_paths == old(self).checked_paths,
            final(self).current_dir == old(self).current_dir,
            *final(self) == old(self).with_selected(final(self).selected),
    {
        self.selected = table_cursor::last(self.current_dir_files.len());
    }

    /// Selects row `index`, kept inside the list.
    pub fn select(&mut self, index: Option<usize>)
        requires
            old(self).wf(),
        ensures
            final(self).wf(),
            final(self).selected == spec_clamp(index, old(self).current_dir_files@.len()),
            final(self).current_dir_files == old(self).current_dir_files,
            final(self).checked_paths == old(self).checked_paths,
            final(self).current_dir == old(self).current_dir,
    {
        self.selected = table_cursor::clamp(index, self.current_dir_files.len());
    }

    /// The file on the selected row.
    pub fn selected_file(&self) -> (r: Option<&VFile>)
        requires
            self.wf(),
        ensures
            match self.selected {
                Some(i) => r == Some(&self.current_dir_files@[i as int]),
                None => r is None,
            },
    {
        match self.selected {
            Some(i) => Some(&self.current_dir_files[i]),
            None => None,
        }
    }

    /// Whether `path` is checked.
    pub fn is_checked_path(&self, path: &str) -> (r: bool)
        ensures
            r == views(self.checked_paths@).contains(path@),
    {
        let mut i: usize = 0;
        while i < self.checked_paths.len()
            invariant
                i <= self.checked_paths@.len(),
                forall|j: int| 0 <= j < i ==> self.checked_paths@[j]@ != path@,
            decreases self.checked_paths@.len() - i,
        {
            if str_eq(self.checked_paths[i].as_str(), path) {
                assert(views(self.checked_paths@)[i as int] == path@);
                return true;
            }
            i += 1;
        }
        assert forall|j: int| 0 <= j < views(self.checked_paths@).len() implies views(self.checked_paths@)[j] != path@ by {
            assert(views(self.checked_paths@)[j] == self.checked_paths@[j]@);
        }
        false
    }

    /// Whether `file` is checked.
    pub fn is_checked(&self, file: &VFile) -> (r: bool)
        ensures
            r == views(self.checked_paths@).contains(file.path@),
    {
        self.is_checked_path(file.absolute_path())
    }

    /// Checks the selected file, or unchecks it when it was checked.
    pub fn toggle_checked_file(&mut self)
        requires
            old(self).wf(),
        ensures
            final(self).wf(),
            final(self).selected == old(self).selected,
            final(self).current_dir_files == old(self).current_dir_files,
            final(self).current_dir == old(self).current_dir,
            match old(self).selected {
                Some(i) => views(final(self).checked_paths@).to_set() == (
                    if views(old(self).checked_paths@).contains(old(self).current_dir_files@[i as int].path@) {
                        views(old(self).checked_paths@).to_set().remove(old(self).current_dir_files@[i as int].path@)
                    } else {
                        views(old(self).checked_paths@).to_set().insert(old(self).current_dir_files@[i as int].path@)
                    }),
                None => final(self).checked_paths == old(self).checked_paths,
            },
            *final(self) == old(self).with_checked_paths(final(self).checked_paths),
    {
        let path = match self.selected {
            Some(i) => owned(self.current_dir_files[i].absolute_path()),
            None => {
                return;
            },
        };
        let ghost old_views = views(self.checked_paths@);
        let mut k: usize = 0;
        while k < self.checked_paths.len() && !str_eq(self.checked_paths[k].as_str(), path.as_str())
            invariant
                k <= self.checked_paths@.len(),
                forall|j: int| 0 <= j < k ==> self.checked_paths@[j]@ != path@,
            decreases self.checked_paths@.len() - k,
        {
            k += 1;
        }
        if k < self.checked_paths.len() {
            self.checked_paths.remove(k);
            proof {
                let nv = views(self.checked_paths@);
                assert(nv =~= old_views.remove(k as int));
                assert(old_views[k as int] == path@);
                assert forall|x: Seq<char>| #[trigger] nv.to_set().contains(x) == old_views.to_set().remove(path@).contains(x) by {
                    if nv.contains(x) {
                        let j = choose|j: int| 0 <= j < nv.len() && nv[j] == x;
                        if j < k {
                            assert(old_views[j] == x);
                        } else {
                            assert(old_views[j + 1] == x);
                        }
                        if x == path@ {
                            if j < k {
                                assert(false);
                            } else {
                                assert(old_views[j + 1] == old_views[k as int]);
                            }
                        }
                    }
                    if old_views.contains(x) && x != path@ {
                        let j = choose|j: int| 0 <= j < old_views.len() && old_views[j] == x;
                        if j < k {
                            assert(nv[j] == x);
                        } else if j > k {
                            assert(nv[j - 1] == x);
                        }
                    }
                }
                assert(nv.to_set() =~= old_views.to_set().remove(path@));
                assert(old_views.contains(path@));
            }
        } else {
            self.checked_paths.push(path);
            proof {
                let nv = views(self.checked_paths@);
                assert(nv =~= old_views.push(path@));
                assert forall|j: int| 0 <= j < old_views.len() implies old_views[j] != path@ by {
                    assert(old_views[j] == old(self).checked_paths@[j]@);
                }
                assert(nv.to_set() =~= old_views.to_set().insert(path@)) by {
                    assert forall|x: Seq<char>| #[trigger] nv.to_set().contains(x) == old_views.to_set().insert(path@).contains(x) by {
                        if nv.contains(x) {
                            let j = choose|j: int| 0 <= j < nv.len() && nv[j] == x;
                            if j < old_views.len() {
                                assert(old_views[j] == x);
                            }
                        }
                        if old_views.contains(x) {
                            let j = choose|j: int| 0 <= j < old_views.len() && old_views[j] == x;
                            assert(nv[j] == x);
                        }
                        if x == path@ {
                            assert(nv[old_views.len() as int] == x);
                        }
                    }
                }
                assert(!old_views.contains(path@));
            }
        }
    }

    /// Forgets every check.
    pub fn clear_checked_paths(&mut self)
        requires
            old(self).wf(),
        ensures
            final(self).wf(),
            final(self).checked_paths@.len() == 0,
            final(self).selected == old(self).selected,
            final(self).current_dir_files == old(self).current_dir_files,
            final(self).current_dir == old(self).current_dir,
            final(self).pending_select_name == old(self).pending_select_name,
            final(self).sort_key == old(self).sort_key,
            final(self).load_request == old(self).load_request,
            *final(self) == old(self).with_checked_paths(final(self).checked_paths),
    {
        self.checked_paths = Vec::new();
    }

    /// Checks every listed file when none is checked, and otherwise clears
    /// every check mark.
    pub fn toggle_check_all(&mut self)
        requires
            old(self).wf(),
        ensures
            final(self).wf(),
            old(self).checked_paths@.len() == 0 ==> views(final(self).checked_paths@).to_set() == listed_paths(old(self).current_dir_files@),
            old(self).checked_paths@.len() > 0 ==> final(self).checked_paths@.len() == 0,
            *final(self) == old(self).with_checked_paths(final(self).checked_paths),
    {
        if self.checked_paths.len() > 0 {
            self.checked_paths = Vec::new();
            return;
        }
        let mut c: Vec<String> = Vec::new();
        let mut i: usize = 0;
        while i < self.current_dir_files.len()
            invariant
                i <= self.current_dir_files@.len(),
                no_dups(views(c@)),
                forall|p: Seq<char>| #[trigger] views(c@).contains(p)
                    <==> exists|j: int| 0 <= j < i && self.current_dir_files@[j].path@ == p,
            decreases self.current_dir_files@.len() - i,
        {
            let p = owned(self.current_dir_files[i].absolute_path());
            let mut k: usize = 0;
            while k < c.len() && !str_eq(c[k].as_str(), p.as_str())
                invariant
                    k <= c@.len(),
                    forall|j: int| 0 <= j < k ==> c@[j]@ != p@,
                decreases c@.len() - k,
            {
                k += 1;
            }
            if k == c.len() {
                let ghost before = views(c@);
                c.push(p);
                proof {
                    assert(views(c@) =~= before.push(p@));
                    assert forall|q: Seq<char>| #[trigger] views(c@).contains(q)
                        <==> exists|j: int| 0 <= j < i + 1 && self.current_dir_files@[j].path@ == q by {
                        if views(c@).contains(q) && q != p@ {
                            let m = choose|m: int| 0 <= m < views(c@).len() && views(c@)[m] == q;
                            assert(before[m] == q);
                            assert(before.contains(q));
                        }
                        if exists|j: int| 0 <= j < i + 1 && self.current_dir_files@[j].path@ == q {
                            if q != p@ {
                                let j = choose|j: int| 0 <= j < i + 1 && self.current_dir_files@[j].path@ == q;
                                assert(j < i);
                                assert(before.contains(q));
                                let m = choose|m: int| 0 <= m < before.len() && before[m] == q;
                                assert(views(c@)[m] == q);
                            } else {
                                assert(views(c@)[before.len() as int] == q);
                            }
                        }
                    }
                }
            } else {
                proof {
                    assert(views(c@)[k as int] == p@);
                    assert forall|q: Seq<char>| #[trigger] views(c@).contains(q)
                        <==> exists|j: int| 0 <= j < i + 1 && self.current_dir_files@[j].path@ == q by {
                        if exists|j: int| 0 <= j < i + 1 && self.current_dir_files@[j].path@ == q {
                            if q == p@ {
                                assert(views(c@)[k as int] == q);
                            } else {
                                let j = choose|j: int| 0 <= j < i + 1 && self.current_dir_files@[j].path@ == q;
                                assert(j < i);
                            }
                        }
                    }
                }
            }
            i += 1;
        }
        proof {
            assert(views(c@).to_set() =~= listed_paths(self.current_dir_files@));
        }
        self.checked_paths = c;
    }

    /// Lists only the files whose names contain `q` (every file when it
    /// is empty), and reads the directory again.
    pub fn set_filter(&mut self, q: String)
        requires
            old(self).wf(),
        ensures
            final(self).wf(),
            final(self).filter == q,
            final(self).load_request matches Some(p) && p@ == old(self).current_dir.path@,
            final(self).current_dir == old(self).current_dir,
            final(self).current_dir_files == old(self).current_dir_files,
            final(self).checked_paths == old(self).checked_paths,
            final(self).show_dot_file == old(self).show_dot_file,
            final(self).sort_key == old(self).sort_key,
    {
        self.filter = q;
        self.refresh_files();
    }

    /// Shows or hides dot files, and reads the directory again.
    pub fn toggle_show_dot_file(&mut self)
        requires
            old(self).wf(),
        ensures
            final(self).wf(),
            final(self).show_dot_file == !old(self).show_dot_file,
            final(self).load_request matches Some(p) && p@ == old(self).current_dir.path@,
            final(self).current_dir == old(self).current_dir,
            final(self).current_dir_files == old(self).current_dir_files,
    {
        self.show_dot_file = !self.show_dot_file;
        self.refresh_files();
    }

    pub fn set_pending_select_name(&mut self, name: String)
        ensures
            final(self).pending_select_name == Some(name),
            final(self).current_dir == old(self).current_dir,
            final(self).current_dir_files == old(self).current_dir_files,
            final(self).selected == old(self).selected,
            final(self).checked_paths == old(self).checked_paths,
            final(self).load_request == old(self).load_request,
            final(self).loading == old(self).loading,
            final(self).sort_key == old(self).sort_key,
            final(self).show_dot_file == old(self).show_dot_file,
            final(self).error == old(self).error,
    {
        self.pending_select_name = Some(name);
    }

    /// Goes up to the parent directory, the cursor then landing on the
    /// directory just left; at the root nothing happens.
    pub fn change_dir_in_parent_dir(&mut self)
        requires
            old(self).wf(),
        ensures
            final(self).wf(),
            spec_parent(old(self).current_dir.path@) is None ==> *final(self) == *old(self),
            spec_parent(old(self).current_dir.path@) matches Some(p) ==> (final(self).current_dir.path@ == p
                && (final(self).load_request matches Some(r) && r@ == p)
                && final(self).current_dir_files@.len() == 0
                && match spec_file_name(old(self).current_dir.path@) {
                    Some(n) => final(self).pending_select_name matches Some(s) && s@ == n,
                    None => final(self).pending_select_name is None,
                }),
    {
        let parent = match self.current_dir.parent_path() {
            Some(p) => p,
            None => {
                return;
            },
        };
        let name = self.current_dir.file_name();
        self.change_to(parent.as_str());
        match name {
            Some(n) => self.set_pending_select_name(n),
            None => {},
        }
    }

    /// Going to `path` (a directory when `is_dir`) from `before` gave
    /// `after`, succeeding when `ok` (see `jump_to`).
    pub open spec fn jumped(before: Self, path: Seq<char>, is_dir: bool, after: Self, ok: bool) -> bool {
        &&& is_dir ==> (ok && after.current_dir.path@ == path && after.pending_select_name is None
            && (after.load_request matches Some(q) && q@ == path))
        &&& !is_dir && spec_parent(path) is None ==> !ok && after == before
        &&& !is_dir ==> (spec_parent(path) matches Some(p) ==> (ok && after.current_dir.path@ == p
            && (after.load_request matches Some(q) && q@ == p)
            && match spec_file_name(path) {
                Some(n) => after.pending_select_name matches Some(s) && s@ == n,
                None => after.pending_select_name is None,
            }))
    }

    /// Goes to `path`: into it when it is a directory, otherwise to the
    /// directory holding it with the cursor on it. An error when a file path
    /// has no parent.
    pub fn jump_to(&mut self, path: &str, is_dir: bool) -> (r: Result<(), String>)
        requires
            old(self).wf(),
        ensures
            final(self).wf(),
            Self::jumped(*old(self), path@, is_dir, *final(self), r is Ok),
            is_dir ==> (r is Ok && final(self).current_dir.path@ == path@ && final(self).pending_select_name is None
                && (final(self).load_request matches Some(q) && q@ == path@)),
            !is_dir && spec_parent(path@) is None ==> (r matches Err(e) && e@ == "No parent directory: "@ + path@)
                && *final(self) == *old(self),
            !is_dir ==> (spec_parent(path@) matches Some(p) ==> (r is Ok && final(self).current_dir.path@ == p
                && (final(self).load_request matches Some(q) && q@ == p)
                && match spec_file_name(path@) {
                    Some(n) => final(self).pending_select_name matches Some(s) && s@ == n,
                    None => final(self).pending_select_name is None,
                })),
    {
        if is_dir {
            self.change_to(path);
            return Ok(());
        }
        let parent = match crate::path::parent(path) {
            Some(p) => p,
            None => {
                proof {
                    reveal_strlit("No parent directory: ");
                }
                let mut e = owned("No parent directory: ");
                crate::text::push_str(&mut e, path);
                return Err(e);
            },
        };
        let name = crate::path::file_name(path);
        self.change_to(parent.as_str());
        match name {
            Some(n) => self.set_pending_select_name(n),
            None => {},
        }
        Ok(())
    }

    /// Selects the first file from the selected row on (the row itself
    /// included, going round) whose name contains `value`; nothing moves
    /// when no name does.
    pub fn select_matching_file(&mut self, value: &str)
        requires
            old(self).wf(),
        ensures
            final(self).wf(),
            final(self).current_dir_files == old(self).current_dir_files,
            final(self).checked_paths == old(self).checked_paths,
            final(self).current_dir == old(self).current_dir,
            found_forward(old(self).current_dir_files@, value@, old(self).selected, 0, final(self).selected),
    {
        let len = self.current_dir_files.len();
        if len == 0 {
            return;
        }
        let names = file_names(&self.current_dir_files);
        assert(names@.len() == views(names@).len());
        let start = match self.selected {
            Some(s) => s,
            None => 0,
        };
        match find_forward(&names, value, start, 0) {
            Some(i) => {
                proof {
                    let k = choose|k: int| first_forward(views(names@), value@, start as int, 0, k)
                        && i == fwd(start as int, k, names@.len() as int);
                    assert(first_forward(names_of(self.current_dir_files@), value@, search_start(self.selected), 0, k));
                }
                self.selected = Some(i);
            },
            None => {},
        }
    }

    /// Selects the next file after the selected row (going round) whose name
    /// contains `value`.
    pub fn select_next_matching_file(&mut self, value: &str)
        requires
            old(self).wf(),
        ensures
            final(self).wf(),
            final(self).current_dir_files == old(self).current_dir_files,
            final(self).checked_paths == old(self).checked_paths,
            final(self).current_dir == old(self).current_dir,
            found_forward(old(self).current_dir_files@, value@, old(self).selected, search_skip(old(self).selected), final(self).selected),
    {
        let len = self.current_dir_files.len();
        if len == 0 {
            return;
        }
        let names = file_names(&self.current_dir_files);
        assert(names@.len() == views(names@).len());
        let (start, k0) = match self.selected {
            Some(s) => (s, 1),
            None => (0, 0),
        };
        match find_forward(&names, value, start, k0) {
            Some(i) => {
                proof {
                    let k = choose|k: int| first_forward(views(names@), value@, start as int, k0 as int, k)
                        && i == fwd(start as int, k, names@.len() as int);
                    assert(first_forward(names_of(self.current_dir_files@), value@, search_start(self.selected), search_skip(self.selected), k));
                }
                self.selected = Some(i);
            },
            None => {},
        }
    }

    /// Selects the previous file before the selected row (going round)
    /// whose name contains `value`.
    pub fn select_prev_matching_file(&mut self, value: &str)
        requires
            old(self).wf(),
        ensures
            final(self).wf(),
            final(self).current_dir_files == old(self).current_dir_files,
            final(self).checked_paths == old(self).checked_paths,
            final(self).current_dir == old(self).current_dir,
            found_backward(old(self).current_dir_files@, value@, old(self).selected, final(self).selected),
    {
        let len = self.current_dir_files.len();
        if len == 0 {
            return;
        }
        let names = file_names(&self.current_dir_files);
        assert(names@.len() == views(names@).len());
        let (start, k0) = match self.selected {
            Some(s) => (s, 1),
            None => (len - 1, 0),
        };
        match find_backward(&names, value, start, k0) {
            Some(i) => {
                proof {
                    let k = choose|k: int| first_backward(views(names@), value@, start as int, k0 as int, k)
                        && i == bwd(start as int, k, names@.len() as int);
                    assert(first_backward(names_of(self.current_dir_files@), value@,
                        back_search_start(self.selected, self.current_dir_files@.len()), search_skip(self.selected), k));
                }
                self.selected = Some(i);
            },
            None => {},
        }
    }
}

/// Checking a file and checking it again leaves the checked set as it was.
pub proof fn lemma_toggle_twice(s: Set<Seq<char>>, p: Seq<char>)
    ensures
        (if s.contains(p) { s.remove(p) } else { s.insert(p) }).contains(p) != s.contains(p),
        (if (if s.contains(p) { s.remove(p) } else { s.insert(p) }).contains(p) {
            (if s.contains(p) { s.remove(p) } else { s.insert(p) }).remove(p)
        } else {
            (if s.contains(p) { s.remove(p) } else { s.insert(p) }).insert(p)
        }) == s,
{
    let t = if s.contains(p) { s.remove(p) } else { s.insert(p) };
    if t.contains(p) {
        assert(t.remove(p) =~= s);
    } else {
        assert(t.insert(p) =~= s);
    }
}

} // verus!
