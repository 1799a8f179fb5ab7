//! A file as the file list sees it: its absolute path and, when it could be
//! read, its metadata.
use vstd::prelude::*;
use crate::fs::file_time::VFileTime;
use crate::fs::permissions::VPermissions;
use crate::path::{all_normal, file_name, file_stem, join, parent, spec_all_normal, spec_file_name, spec_file_stem, spec_join, spec_parent};
use crate::text::{owned, push_str};

verus! {

/// What kind of entry a path names.
#[derive(Debug, Clone, Copy, PartialEq, Eq, Structural)]
pub enum FileKind {
    Directory,
    File,
    Symlink,
    Other,
}

/// The metadata of a file, read once when the file is listed.
#[derive(Debug, Clone, Copy)]
pub struct VFileMetadata {
    pub kind: FileKind,
    pub size: u64,
    pub mode: u32,
    pub uid: u32,
    pub gid: u32,
    pub nlink: u64,
    pub ino: u64,
    pub dev: u64,
    pub blksize: u64,
    pub blocks: u64,
    pub modified: Option<VFileTime>,
    pub accessed: Option<VFileTime>,
    pub created: Option<VFileTime>,
}

/// The label of a kind of entry.
pub open spec fn spec_kind_label(k: FileKind) -> Seq<char> {
    match k {
        FileKind::Symlink => seq!['S', 'y', 'm', 'l', 'i', 'n', 'k'],
        FileKind::Directory => seq!['D', 'i', 'r', 'e', 'c', 't', 'o', 'r', 'y'],
        FileKind::File => seq!['F', 'i', 'l', 'e'],
        FileKind::Other => seq!['O', 't', 'h', 'e', 'r'],
    }
}

impl VFileMetadata {
    pub fn file_size(&self) -> (r: u64)
        ensures
            r == self.size,
    {
        self.size
    }

    /// The size as the file list shows it (`234.5 MB`, `512 B`).
    pub fn compact_size(&self) -> (r: String)
        ensures
            r@ == crate::fs::size::spec_compact_size(self.size as nat),
    {
        crate::fs::size::compact_size_str(self.size)
    }

    /// The size as the attribute panel shows it (`1.0 KB (1,024 bytes)`).
    pub fn formatted_size(&self) -> (r: String)
        ensures
            r@ == crate::fs::size::spec_verbose_size(self.size as nat),
    {
        crate::fs::size::verbose_size_str(self.size)
    }

    /// `Symlink`, `Directory`, `File` or `Other`.
    pub fn file_type(&self) -> (r: &'static str)
        ensures
            r@ == spec_kind_label(self.kind),
    {
        proof {
            reveal_strlit("Symlink");
            reveal_strlit("Directory");
            reveal_strlit("File");
            reveal_strlit("Other");
        }
        match self.kind {
            FileKind::Symlink => "Symlink",
            FileKind::Directory => "Directory",
            FileKind::File => "File",
            FileKind::Other => "Other",
        }
    }

    pub fn is_dir(&self) -> (r: bool)
        ensures
            r == (self.kind == FileKind::Directory),
    {
        self.kind == FileKind::Directory
    }

    pub fn is_file(&self) -> (r: bool)
        ensures
            r == (self.kind == FileKind::File),
    {
        self.kind == FileKind::File
    }

    pub fn is_symlink(&self) -> (r: bool)
        ensures
            r == (self.kind == FileKind::Symlink),
    {
        self.kind == FileKind::Symlink
    }

    pub fn permissions(&self) -> (r: VPermissions)
        ensures
            r.mode == self.mode,
    {
        VPermissions::from_mode(self.mode)
    }
}

/// A file: its absolute path and the metadata read when it was listed.
#[derive(Debug, Clone)]
pub struct VFile {
    pub path: String,
    pub metadata: Option<VFileMetadata>,
}

/// The message of a name that would leave its directory.
pub open spec fn invalid_name_message(name: Seq<char>, what: Seq<char>) -> Seq<char> {
    name + seq![':', ' ', 'I', 'n', 'v', 'a', 'l', 'i', 'd', ' '] + what
}

/// Where creating `name` in `dir` writes: nothing for an empty name, an
/// error for a name with a component that is not a normal name, else the
/// joined path.
pub open spec fn spec_plan_in_dir(dir: Seq<char>, name: Seq<char>, what: Seq<char>) -> Result<Option<Seq<char>>, Seq<char>> {
    if name.len() == 0 {
        Ok(None)
    } else if !spec_all_normal(name) {
        Err(invalid_name_message(name, what))
    } else {
        Ok(Some(spec_join(dir, name)))
    }
}

/// The message of a rename of a path without parent.
pub open spec fn no_parent_message() -> Seq<char> {
    seq!['F', 'a', 'i', 'l', 'e', 'd', ' ', 't', 'o', ' ', 'g', 'e', 't', ' ', 'p', 'a', 'r', 'e', 'n', 't', ' ', 'p', 'a', 't', 'h']
}

/// Where renaming `path` to `name` moves it: nothing for an empty name, an
/// error for an invalid name or a path without parent, else `name` in the
/// parent directory.
pub open spec fn spec_plan_rename(path: Seq<char>, name: Seq<char>) -> Result<Option<Seq<char>>, Seq<char>> {
    if name.len() == 0 {
        Ok(None)
    } else if !spec_all_normal(name) {
        Err(invalid_name_message(name, seq!['f', 'i', 'l', 'e', ' ', 'n', 'a', 'm', 'e']))
    } else {
        match spec_parent(path) {
            None => Err(no_parent_message()),
            Some(p) => Ok(Some(spec_join(p, name))),
        }
    }
}

/// Renaming a file to a name of one component keeps it in its directory:
/// the target's parent is the file's parent, and its file name is the new
/// name.
pub proof fn lemma_rename_stays_in_directory(path: Seq<char>, name: Seq<char>)
    requires
        !name.contains('/'),
    ensures
        spec_plan_rename(path, name) matches Ok(Some(t)) ==> spec_parent(t) == spec_parent(path)
            && spec_file_name(t) == Some(name),
{
    if name.len() > 0 && spec_all_normal(name) {
        if let Some(p) = spec_parent(path) {
            let t = crate::path::trim_tail(path);
            let k = crate::path::last_index(t, '/');
            if k > 0 {
                crate::path::lemma_trim_tail_done(t.subrange(0, k));
            }
            if crate::path::is_dot_dot(name) {
                assert(crate::path::dot_dot_at(name, 0));
            }
            crate::path::lemma_join_one_component(p, name);
        }
    }
}

/// The message of a file without metadata.
pub open spec fn no_metadata_message(path: Seq<char>) -> Seq<char> {
    path + seq![':', ' ', 'N', 'o', ' ', 'm', 'e', 't', 'a', 'd', 'a', 't', 'a']
}

fn invalid_name(name: &str, what: &str) -> (r: String)
    ensures
        r@ == invalid_name_message(name@, what@),
{
    proof {
        reveal_strlit(": Invalid ");
    }
    let mut r = owned(name);
    push_str(&mut r, ": Invalid ");
    push_str(&mut r, what);
    assert(r@ =~= invalid_name_message(name@, what@));
    r
}

fn plan_in_dir(dir: &str, name: &str, what: &str) -> (r: Result<Option<String>, String>)
    ensures
        match r {
            Ok(None) => spec_plan_in_dir(dir@, name@, what@) == Ok::<Option<Seq<char>>, Seq<char>>(None),
            Ok(Some(p)) => spec_plan_in_dir(dir@, name@, what@) == Ok::<Option<Seq<char>>, Seq<char>>(Some(p@)),
            Err(m) => spec_plan_in_dir(dir@, name@, what@) == Err::<Option<Seq<char>>, Seq<char>>(m@),
        },
{
    if name.is_empty() {
        assert(name@.len() == 0);
        return Ok(None);
    }
    assert(name@.len() != 0);
    if !all_normal(name) {
        return Err(invalid_name(name, what));
    }
    Ok(Some(join(dir, name)))
}

impl VFile {
    pub fn new(path: String, metadata: Option<VFileMetadata>) -> (r: VFile)
        ensures
            r.path == path,
            r.metadata == metadata,
    {
        VFile { path, metadata }
    }

    /// A copy of the file.
    pub fn duplicate(&self) -> (r: VFile)
        ensures
            r == *self,
    {
        VFile { path: self.path.clone(), metadata: self.metadata }
    }

    pub fn absolute_path(&self) -> (r: &str)
        ensures
            r@ == self.path@,
    {
        self.path.as_str()
    }

    pub fn file_name(&self) -> (r: Option<String>)
        ensures
            r matches Some(n) ==> spec_file_name(self.path@) == Some(n@),
            r is None <==> spec_file_name(self.path@) is None,
    {
        file_name(self.path.as_str())
    }

    pub fn file_stem(&self) -> (r: Option<String>)
        ensures
            r matches Some(n) ==> spec_file_stem(self.path@) == Some(n@),
            r is None <==> spec_file_stem(self.path@) is None,
    {
        file_stem(self.path.as_str())
    }

    /// The path of the directory holding this file.
    pub fn parent_path(&self) -> (r: Option<String>)
        ensures
            r matches Some(n) ==> spec_parent(self.path@) == Some(n@),
            r is None <==> spec_parent(self.path@) is None,
    {
        parent(self.path.as_str())
    }

    /// The metadata, or an error naming the path when it could not be read.
    pub fn metadata(&self) -> (r: Result<&VFileMetadata, String>)
        ensures
            self.metadata matches Some(m) ==> r == Ok::<&VFileMetadata, String>(&m),
            self.metadata is None ==> (r matches Err(e) && e@ == no_metadata_message(self.path@)),
    {
        match &self.metadata {
            Some(m) => Ok(m),
            None => {
                proof {
                    reveal_strlit(": No metadata");
                }
                let mut e = owned(self.path.as_str());
                push_str(&mut e, ": No metadata");
                assert(e@ =~= no_metadata_message(self.path@));
                Err(e)
            },
        }
    }

    pub fn is_dir(&self) -> (r: bool)
        ensures
            r == (self.metadata matches Some(m) && m.kind == FileKind::Directory),
    {
        match &self.metadata {
            Some(m) => m.is_dir(),
            None => false,
        }
    }

    /// Where creating a file named `name` in this directory writes.
    pub fn plan_create_file(&self, name: &str) -> (r: Result<Option<String>, String>)
        ensures
            match r {
                Ok(None) => spec_plan_in_dir(self.path@, name@, seq!['f', 'i', 'l', 'e', ' ', 'n', 'a', 'm', 'e']) == Ok::<Option<Seq<char>>, Seq<char>>(None),
                Ok(Some(p)) => spec_plan_in_dir(self.path@, name@, seq!['f', 'i', 'l', 'e', ' ', 'n', 'a', 'm', 'e']) == Ok::<Option<Seq<char>>, Seq<char>>(Some(p@)),
                Err(m) => spec_plan_in_dir(self.path@, name@, seq!['f', 'i', 'l', 'e', ' ', 'n', 'a', 'm', 'e']) == Err::<Option<Seq<char>>, Seq<char>>(m@),
            },
    {
        proof {
            reveal_strlit("file name");
            assert("file name"@ =~= seq!['f', 'i', 'l', 'e', ' ', 'n', 'a', 'm', 'e']);
        }
        plan_in_dir(self.path.as_str(), name, "file name")
    }

    /// Where creating a directory named `name` in this directory writes.
    pub fn plan_create_dir(&self, name: &str) -> (r: Result<Option<String>, String>)
        ensures
            match r {
                Ok(None) => spec_plan_in_dir(self.path@, name@, seq!['d', 'i', 'r', ' ', 'n', 'a', 'm', 'e']) == Ok::<Option<Seq<char>>, Seq<char>>(None),
                Ok(Some(p)) => spec_plan_in_dir(self.path@, name@, seq!['d', 'i', 'r', ' ', 'n', 'a', 'm', 'e']) == Ok::<Option<Seq<char>>, Seq<char>>(Some(p@)),
                Err(m) => spec_plan_in_dir(self.path@, name@, seq!['d', 'i', 'r', ' ', 'n', 'a', 'm', 'e']) == Err::<Option<Seq<char>>, Seq<char>>(m@),
            },
    {
        proof {
            reveal_strlit("dir name");
            assert("dir name"@ =~= seq!['d', 'i', 'r', ' ', 'n', 'a', 'm', 'e']);
        }
        plan_in_dir(self.path.as_str(), name, "dir name")
    }

    /// Where creating a symbolic link named `name` in this directory writes.
    pub fn plan_create_symlink(&self, name: &str) -> (r: Result<Option<String>, String>)
        ensures
            match r {
                Ok(None) => spec_plan_in_dir(self.path@, name@, seq!['l', 'i', 'n', 'k', ' ', 'n', 'a', 'm', 'e']) == Ok::<Option<Seq<char>>, Seq<char>>(None),
                Ok(Some(p)) => spec_plan_in_dir(self.path@, name@, seq!['l', 'i', 'n', 'k', ' ', 'n', 'a', 'm', 'e']) == Ok::<Option<Seq<char>>, Seq<char>>(Some(p@)),
                Err(m) => spec_plan_in_dir(self.path@, name@, seq!['l', 'i', 'n', 'k', ' ', 'n', 'a', 'm', 'e']) == Err::<Option<Seq<char>>, Seq<char>>(m@),
            },
    {
        proof {
            reveal_strlit("link name");
            assert("link name"@ =~= seq!['l', 'i', 'n', 'k', ' ', 'n', 'a', 'm', 'e']);
        }
        plan_in_dir(self.path.as_str(), name, "link name")
    }

    /// Where renaming this file to `name` moves it.
    pub fn plan_rename(&self, name: &str) -> (r: Result<Option<String>, String>)
        ensures
            match r {
                Ok(None) => spec_plan_rename(self.path@, name@) == Ok::<Option<Seq<char>>, Seq<char>>(None),
                Ok(Some(p)) => spec_plan_rename(self.path@, name@) == Ok::<Option<Seq<char>>, Seq<char>>(Some(p@)),
                Err(m) => spec_plan_rename(self.path@, name@) == Err::<Option<Seq<char>>, Seq<char>>(m@),
            },
    {
        proof {
            reveal_strlit("file name");
            assert("file name"@ =~= seq!['f', 'i', 'l', 'e', ' ', 'n', 'a', 'm', 'e']);
            reveal_strlit("Failed to get parent path");
            assert("Failed to get parent path"@ =~= seq!['F', 'a', 'i', 'l', 'e', 'd', ' ', 't', 'o', ' ', 'g', 'e', 't', ' ', 'p', 'a', 'r', 'e', 'n', 't', ' ', 'p', 'a', 't', 'h']);
        }
        if name.is_empty() {
            return Ok(None);
        }
        if !all_normal(name) {
            return Err(invalid_name(name, "file name"));
        }
        match parent(self.path.as_str()) {
            None => Err(owned("Failed to get parent path")),
            Some(p) => Ok(Some(join(p.as_str(), name))),
        }
    }
}

} // verus!
