//! Which host directories and files a plugin may use.
//!
//! Each entry names a path of the workspace (the current directory) and is
//! opened inside it, so nothing outside the workspace can be named.  A
//! directory is seen by the plugin under `/` joined with its path; a file
//! is opened as a file, with its read and write options, and seen under
//! its own path.

use vstd::prelude::*;
use crate::paths::{join, joined_path};
use crate::perms::{dir_perms, dir_perms_none, file_perms, file_perms_none, perm_bits};
use crate::setup::{
    collect, lemma_collect_err, lemma_collect_step, lemma_preopen_views_push,
    lemma_request_views_push, preopen_views, request_views, OpenBase, OpenKind, OpenRequest,
    OpenRequestView, Preopen, PreopenView,
};

verus! {

/// A host directory a plugin may use.
pub struct DirAccess {
    path: String,
    read: bool,
    mutate: bool,
}

/// A host file a plugin may use.
pub struct FileAccess {
    path: String,
    read: bool,
    write: bool,
}

/// The host directories and files a plugin may use.
pub struct FsAccess {
    file: Vec<FileAccess>,
    dir: Vec<DirAccess>,
}

/// The model of a `DirAccess`.
pub struct DirAccessView {
    pub path: Seq<char>,
    pub read: bool,
    pub mutate: bool,
}

/// The model of a `FileAccess`.
pub struct FileAccessView {
    pub path: Seq<char>,
    pub read: bool,
    pub write: bool,
}

/// The model of an `FsAccess`.
pub struct FsAccessView {
    pub file: Seq<FileAccessView>,
    pub dir: Seq<DirAccessView>,
}

impl View for DirAccess {
    type V = DirAccessView;

    closed spec fn view(&self) -> DirAccessView {
        DirAccessView { path: self.path@, read: self.read, mutate: self.mutate }
    }
}

impl View for FileAccess {
    type V = FileAccessView;

    closed spec fn view(&self) -> FileAccessView {
        FileAccessView { path: self.path@, read: self.read, write: self.write }
    }
}

/// The models of a sequence of directory entries.
pub open spec fn dir_views(v: Seq<DirAccess>) -> Seq<DirAccessView> {
    v.map_values(|d: DirAccess| d@)
}

/// The models of a sequence of file entries.
pub open spec fn file_views(v: Seq<FileAccess>) -> Seq<FileAccessView> {
    v.map_values(|f: FileAccess| f@)
}

impl View for FsAccess {
    type V = FsAccessView;

    closed spec fn view(&self) -> FsAccessView {
        FsAccessView { file: file_views(self.file@), dir: dir_views(self.dir@) }
    }
}

/// How a directory entry is opened: as a directory inside the workspace.
pub open spec fn dir_request(d: DirAccessView) -> OpenRequestView {
    OpenRequestView { path: d.path, base: OpenBase::Workspace, kind: OpenKind::Dir }
}

/// How a file entry is opened: as a file inside the workspace, with its
/// read and write options.
pub open spec fn file_request(f: FileAccessView) -> OpenRequestView {
    OpenRequestView {
        path: f.path,
        base: OpenBase::Workspace,
        kind: OpenKind::File { read: f.read, write: f.write },
    }
}

/// The preopen an opened directory entry gives as request `request`:
/// directory permissions from its flags, no file permission, seen under
/// `/` joined with its path.
pub open spec fn dir_preopen(d: DirAccessView, request: nat) -> PreopenView {
    PreopenView {
        request,
        dir_perms: perm_bits(d.read, d.mutate),
        file_perms: perm_bits(false, false),
        guest_path: joined_path(seq!['/'], d.path),
    }
}

/// The preopen an opened file entry gives as request `request`: no
/// directory permission, file permissions from its flags, seen under its path.
pub open spec fn file_preopen(f: FileAccessView, request: nat) -> PreopenView {
    PreopenView {
        request,
        dir_perms: perm_bits(false, false),
        file_perms: perm_bits(f.read, f.write),
        guest_path: f.path,
    }
}

/// The paths to open: the directories, then the files.
pub open spec fn fs_requests(a: FsAccessView) -> Seq<OpenRequestView> {
    Seq::new(a.dir.len(), |i: int| dir_request(a.dir[i])) + Seq::new(
        a.file.len(),
        |j: int| file_request(a.file[j]),
    )
}

/// Every path a manifest asks for is opened inside the workspace: none is
/// opened with the process's own authority, so an absolute path or one
/// that leaves the workspace cannot be reached.
pub proof fn requests_stay_in_workspace(a: FsAccessView)
    ensures
        forall|k: int| 0 <= k < fs_requests(a).len() ==> #[trigger] fs_requests(a)[k].base == OpenBase::Workspace,
{
}

/// The texts of the outcomes of opening the requests.
pub open spec fn outcome_texts(v: Seq<Result<(), String>>) -> Seq<Result<(), Seq<char>>> {
    v.map_values(|r: Result<(), String>| match r {
        Ok(()) => Ok(()),
        Err(e) => Err(e@),
    })
}

/// What each request gives: its preopen when it opened, else its error.
pub open spec fn fs_items(a: FsAccessView, outcomes: Seq<Result<(), Seq<char>>>) -> Seq<
    Result<PreopenView, Seq<char>>,
> {
    Seq::new(
        a.dir.len() + a.file.len(),
        |k: int|
            match outcomes[k] {
                Err(e) => Err(e),
                Ok(()) => if k < a.dir.len() {
                    Ok(dir_preopen(a.dir[k], k as nat))
                } else {
                    Ok(file_preopen(a.file[k - a.dir.len()], k as nat))
                },
            },
    )
}

/// The preopens a plugin gets: all entries, directories first, when each
/// opened; else the first failure's error.
pub open spec fn fs_grants(a: FsAccessView, outcomes: Seq<Result<(), Seq<char>>>) -> Result<
    Seq<PreopenView>,
    Seq<char>,
> {
    collect(fs_items(a, outcomes))
}

impl DirAccess {
    /// An entry for the directory `path`, readable when `read`, changeable when `mutate`.
    pub fn new(path: String, read: bool, mutate: bool) -> (r: Self)
        ensures
            r@ == (DirAccessView { path: path@, read, mutate }),
    {
        DirAccess { path, read, mutate }
    }

    /// The path of the directory.
    pub fn path(&self) -> (r: &String)
        ensures
            r@ == self@.path,
    {
        &self.path
    }

    /// Whether the directory may be read.
    pub fn read(&self) -> (r: bool)
        ensures
            r == self@.read,
    {
        self.read
    }

    /// Whether the directory may be changed.
    pub fn mutate(&self) -> (r: bool)
        ensures
            r == self@.mutate,
    {
        self.mutate
    }

    /// How the directory is opened.
    pub fn request(&self) -> (r: OpenRequest)
        ensures
            r@ == dir_request(self@),
    {
        OpenRequest { path: self.path.clone(), base: OpenBase::Workspace, kind: OpenKind::Dir }
    }

    /// The preopen the directory gives as request `request` once opened.
    pub fn provide(&self, request: usize) -> (r: Preopen)
        ensures
            r@ == dir_preopen(self@, request as nat),
    {
        let file_perms = file_perms_none();
        let perms = dir_perms(self.read, self.mutate);
        let guest_path = join("/", self.path.as_str());
        proof {
            reveal_strlit("/");
            assert("/"@ =~= seq!['/']);
        }
        Preopen { request, dir_perms: perms, file_perms, guest_path }
    }
}

impl FileAccess {
    /// An entry for the file `path`, readable when `read`, writable when `write`.
    pub fn new(path: String, read: bool, write: bool) -> (r: Self)
        ensures
            r@ == (FileAccessView { path: path@, read, write }),
    {
        FileAccess { path, read, write }
    }

    /// The path of the file.
    pub fn path(&self) -> (r: &String)
        ensures
            r@ == self@.path,
    {
        &self.path
    }

    /// Whether the file may be read.
    pub fn read(&self) -> (r: bool)
        ensures
            r == self@.read,
    {
        self.read
    }

    /// Whether the file may be written.
    pub fn write(&self) -> (r: bool)
        ensures
            r == self@.write,
    {
        self.write
    }

    /// How the file is opened.
    pub fn request(&self) -> (r: OpenRequest)
        ensures
            r@ == file_request(self@),
    {
        OpenRequest {
            path: self.path.clone(),
            base: OpenBase::Workspace,
            kind: OpenKind::File { read: self.read, write: self.write },
        }
    }

    /// The preopen the file gives as request `request` once opened.
    pub fn provide(&self, request: usize) -> (r: Preopen)
        ensures
            r@ == file_preopen(self@, request as nat),
    {
        let perms = dir_perms_none();
        let file_perms = file_perms(self.read, self.write);
        Preopen { request, dir_perms: perms, file_perms, guest_path: self.path.clone() }
    }
}

impl FsAccess {
    /// Access to the given files and directories.
    pub fn new(file: Vec<FileAccess>, dir: Vec<DirAccess>) -> (r: Self)
        ensures
            r@ == (FsAccessView { file: file_views(file@), dir: dir_views(dir@) }),
    {
        FsAccess { file, dir }
    }

    /// The directory entries.
    pub fn dir(&self) -> (r: &Vec<DirAccess>)
        ensures
            dir_views(r@) == self@.dir,
    {
        &self.dir
    }

    /// The file entries.
    pub fn file(&self) -> (r: &Vec<FileAccess>)
        ensures
            file_views(r@) == self@.file,
    {
        &self.file
    }

    /// The paths to open, in order: the directories, then the files.
    /// `provide` takes the outcome of opening each of them.
    pub fn open_requests(&self) -> (r: Vec<OpenRequest>)
        ensures
            request_views(r@) == fs_requests(self@),
    {
        let ghost want = fs_requests(self@);
        let mut r: Vec<OpenRequest> = Vec::new();
        let mut i: usize = 0;
        while i < self.dir.len()
            invariant
                i <= self.dir.len(),
                want == fs_requests(self@),
                request_views(r@) == want.take(i as int),
            decreases self.dir.len() - i,
        {
            let req = self.dir[i].request();
            proof {
                lemma_request_views_push(r@, req);
                assert(want.take(i as int + 1) =~= want.take(i as int).push(req@));
            }
            r.push(req);
            i = i + 1;
        }
        let n = self.dir.len();
        let mut j: usize = 0;
        while j < self.file.len()
            invariant
                j <= self.file.len(),
                n == self.dir.len(),
                want == fs_requests(self@),
                request_views(r@) == want.take(n + j),
            decreases self.file.len() - j,
        {
            let req = self.file[j].request();
            proof {
                lemma_request_views_push(r@, req);
                assert(want.take(n + j + 1) =~= want.take(n + j).push(req@));
            }
            r.push(req);
            j = j + 1;
        }
        assert(want.take(n + j) =~= want);
        r
    }

    /// The preopens the plugin gets, given the outcome of opening each
    /// request of `open_requests` (`outcomes[k]` for the `k`-th): every
    /// entry, directories first, or the first failure's error.
    pub fn provide(&self, outcomes: &Vec<Result<(), String>>) -> (r: Result<Vec<Preopen>, String>)
        requires
            outcomes@.len() == self@.dir.len() + self@.file.len(),
        ensures
            match (r, fs_grants(self@, outcome_texts(outcomes@))) {
                (Ok(v), Ok(w)) => preopen_views(v@) == w,
                (Err(e), Err(f)) => e@ == f,
                _ => false,
            },
    {
        let ghost items = fs_items(self@, outcome_texts(outcomes@));
        let total = outcomes.len();
        let n = self.dir.len();
        let mut r: Vec<Preopen> = Vec::new();
        let mut i: usize = 0;
        assert(items.take(0) =~= Seq::empty());
        assert(preopen_views(r@) =~= Seq::empty());
        while i < n
            invariant
                i <= n,
                n == self.dir.len(),
                total == outcomes@.len(),
                outcomes@.len() == self.dir.len() + self.file.len(),
                items == fs_items(self@, outcome_texts(outcomes@)),
                collect(items.take(i as int)) == Ok::<Seq<PreopenView>, Seq<char>>(preopen_views(r@)),
            decreases n - i,
        {
            proof {
                lemma_collect_step(items, i as int);
            }
            match &outcomes[i] {
                Ok(()) => {
                    let p = self.dir[i].provide(i);
                    proof {
                        lemma_preopen_views_push(r@, p);
                    }
                    r.push(p);
                },
                Err(e) => {
                    proof {
                        lemma_collect_err(items, i as int + 1, e@);
                    }
                    return Err(e.clone());
                },
            }
            i = i + 1;
        }
        let mut j: usize = 0;
        while j < self.file.len()
            invariant
                j <= self.file.len(),
                n == self.dir.len(),
                total == outcomes@.len(),
                outcomes@.len() == self.dir.len() + self.file.len(),
                items == fs_items(self@, outcome_texts(outcomes@)),
                collect(items.take(n + j)) == Ok::<Seq<PreopenView>, Seq<char>>(preopen_views(r@)),
            decreases self.file.len() - j,
        {
            proof {
                lemma_collect_step(items, n + j);
            }
            match &outcomes[n + j] {
                Ok(()) => {
                    let p = self.file[j].provide(n + j);
                    proof {
                        lemma_preopen_views_push(r@, p);
                    }
                    r.push(p);
                },
                Err(e) => {
                    proof {
                        lemma_collect_err(items, n + j + 1, e@);
                    }
                    return Err(e.clone());
                },
            }
            j = j + 1;
        }
        assert(items.take(n + j) =~= items);
        Ok(r)
    }
}

} // verus!
