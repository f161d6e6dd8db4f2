//! Capabilities of a plugin run in the workspace.
//!
//! A `Capabilities` value says which host streams a plugin sees, which host
//! environment variables it is given and which directories and files of the
//! workspace it may open.  Directories and files are opened relative to the
//! workspace; the caller opens them and reports which succeeded.

use vstd::prelude::*;
use crate::perms::{grants_exactly, perm_bits, dir_perms_union, file_perms_union};
use crate::setup::{
    InputSource, OutputTarget, OpenBase, OpenKind, OpenRequest, OpenRequestView, Preopen,
    PreopenView, SetupView, WasiSetup, select, texts, text_pairs, preopen_views, request_views,
    lemma_select_step, lemma_text_pairs_push, lemma_preopen_views_push, lemma_request_views_push,
    lemma_select_from, lemma_select_keeps,
};

verus! {

/// A file of the workspace that a plugin may use.
pub struct FileAccess {
    path: String,
    read: bool,
    write: bool,
}

/// A directory of the workspace that a plugin may use.
pub struct DirAccess {
    path: String,
    read: bool,
    mutate: bool,
}

/// The directories and files of the workspace that a plugin may use.
pub struct Access {
    file: Vec<FileAccess>,
    dir: Vec<DirAccess>,
}

/// Everything a plugin is allowed to see of its host.
pub struct Capabilities {
    stdin: bool,
    stdout: bool,
    stderr: bool,
    args: Vec<String>,
    env: Vec<String>,
    access: Access,
}

/// The hook that is told of every call between the host and a plugin.
pub struct SpinletHook;

/// The model of a `FileAccess`.
pub struct FileAccessView {
    pub path: Seq<char>,
    pub read: bool,
    pub write: bool,
}

/// The model of a `DirAccess`.
pub struct DirAccessView {
    pub path: Seq<char>,
    pub read: bool,
    pub mutate: bool,
}

/// The model of an `Access`.
pub struct AccessView {
    pub file: Seq<FileAccessView>,
    pub dir: Seq<DirAccessView>,
}

/// The model of a `Capabilities`.
pub struct CapabilitiesView {
    pub stdin: bool,
    pub stdout: bool,
    pub stderr: bool,
    pub args: Seq<Seq<char>>,
    pub env: Seq<Seq<char>>,
    pub access: AccessView,
}

impl View for FileAccess {
    type V = FileAccessView;

    closed spec fn view(&self) -> FileAccessView {
        FileAccessView { path: self.path@, read: self.read, write: self.write }
    }
}

impl View for DirAccess {
    type V = DirAccessView;

    closed spec fn view(&self) -> DirAccessView {
        DirAccessView { path: self.path@, read: self.read, mutate: self.mutate }
    }
}

/// The models of a sequence of file entries.
pub open spec fn file_views(v: Seq<FileAccess>) -> Seq<FileAccessView> {
    v.map_values(|f: FileAccess| f@)
}

/// The models of a sequence of directory entries.
pub open spec fn dir_views(v: Seq<DirAccess>) -> Seq<DirAccessView> {
    v.map_values(|d: DirAccess| d@)
}

impl View for Access {
    type V = AccessView;

    closed spec fn view(&self) -> AccessView {
        AccessView { file: file_views(self.file@), dir: dir_views(self.dir@) }
    }
}

impl View for Capabilities {
    type V = CapabilitiesView;

    closed spec fn view(&self) -> CapabilitiesView {
        CapabilitiesView {
            stdin: self.stdin,
            stdout: self.stdout,
            stderr: self.stderr,
            args: texts(self.args@),
            env: texts(self.env@),
            access: self.access@,
        }
    }
}

/// The standard input a plugin gets: the host's when allowed, else an empty one.
pub open spec fn stdin_source(allowed: bool) -> InputSource {
    if allowed {
        InputSource::Inherit
    } else {
        InputSource::Empty
    }
}

/// The standard output or error a plugin gets: the host's when allowed,
/// else one that discards everything.
pub open spec fn output_target(allowed: bool) -> OutputTarget {
    if allowed {
        OutputTarget::Inherit
    } else {
        OutputTarget::Sink
    }
}

/// The texts of a sequence of optional strings.
pub open spec fn option_texts(v: Seq<Option<String>>) -> Seq<Option<Seq<char>>> {
    v.map_values(|o: Option<String>| match o {
        Some(s) => Some(s@),
        None => None,
    })
}

/// The environment a plugin is given: each allowed key, in order, with the
/// host's value, leaving out the keys the host does not set.
pub open spec fn env_grants(keys: Seq<Seq<char>>, host: Seq<Option<Seq<char>>>) -> Seq<
    (Seq<char>, Seq<char>),
> {
    select(
        Seq::new(keys.len(), |i: int| (keys[i], host[i]->0)),
        Seq::new(keys.len(), |i: int| host[i] is Some),
    )
}

/// The preopen that an opened directory entry gives, as request `request`.
pub open spec fn dir_grant(d: DirAccessView, request: nat) -> PreopenView {
    PreopenView {
        request,
        dir_perms: perm_bits(d.read, d.mutate),
        file_perms: perm_bits(d.read, d.mutate),
        guest_path: d.path,
    }
}

/// The preopen that an opened file entry gives, as request `request`.
pub open spec fn file_grant(f: FileAccessView, request: nat) -> PreopenView {
    PreopenView {
        request,
        dir_perms: perm_bits(f.read, f.write),
        file_perms: perm_bits(f.read, f.write),
        guest_path: f.path,
    }
}

/// The paths to open in the workspace: the directories, opened as
/// directories, then the files, opened as files with their read and write
/// options.
pub open spec fn access_requests(a: AccessView) -> Seq<OpenRequestView> {
    Seq::new(
        a.dir.len(),
        |i: int| OpenRequestView { path: a.dir[i].path, base: OpenBase::Workspace, kind: OpenKind::Dir },
    ) + Seq::new(
        a.file.len(),
        |j: int|
            OpenRequestView {
                path: a.file[j].path,
                base: OpenBase::Workspace,
                kind: OpenKind::File { read: a.file[j].read, write: a.file[j].write },
            },
    )
}

/// The preopen each request would give if it opened.
pub open spec fn access_candidates(a: AccessView) -> Seq<PreopenView> {
    Seq::new(a.dir.len(), |i: int| dir_grant(a.dir[i], i as nat)) + Seq::new(
        a.file.len(),
        |j: int| file_grant(a.file[j], (a.dir.len() + j) as nat),
    )
}

/// The preopens a plugin is given: none when the workspace did not open,
/// else those of the requests that opened, in order.
pub open spec fn granted_access(a: AccessView, workspace_opened: bool, opened: Seq<bool>) -> Seq<
    PreopenView,
> {
    if workspace_opened {
        select(access_candidates(a), opened)
    } else {
        Seq::empty()
    }
}

/// The whole context a plugin is given.
pub open spec fn capabilities_setup(
    c: CapabilitiesView,
    host_env: Seq<Option<Seq<char>>>,
    workspace_opened: bool,
    opened: Seq<bool>,
) -> SetupView {
    SetupView {
        stdin: Some(stdin_source(c.stdin)),
        stdout: Some(output_target(c.stdout)),
        stderr: Some(output_target(c.stderr)),
        args: Seq::empty(),
        env: env_grants(c.env, host_env),
        preopens: granted_access(c.access, workspace_opened, opened),
    }
}

/// The streams a plugin gets are the host's exactly for the streams its
/// capabilities allow; an input it may not read is empty and an output it
/// may not write is discarded.  It is given no argument.
pub proof fn capabilities_streams_follow_flags(
    c: CapabilitiesView,
    host_env: Seq<Option<Seq<char>>>,
    workspace_opened: bool,
    opened: Seq<bool>,
)
    ensures
        ({
            let s = capabilities_setup(c, host_env, workspace_opened, opened);
            &&& c.stdin ==> s.stdin == Some(InputSource::Inherit)
            &&& !c.stdin ==> s.stdin == Some(InputSource::Empty)
            &&& c.stdout ==> s.stdout == Some(OutputTarget::Inherit)
            &&& !c.stdout ==> s.stdout == Some(OutputTarget::Sink)
            &&& c.stderr ==> s.stderr == Some(OutputTarget::Inherit)
            &&& !c.stderr ==> s.stderr == Some(OutputTarget::Sink)
            &&& s.args.len() == 0
        }),
{
}

/// A plugin gets a host variable only if its capabilities name it, and
/// then with the host's value; and it gets every named variable that the
/// host sets.
pub proof fn capabilities_env_is_named(
    c: CapabilitiesView,
    host_env: Seq<Option<Seq<char>>>,
    workspace_opened: bool,
    opened: Seq<bool>,
)
    requires
        host_env.len() == c.env.len(),
    ensures
        ({
            let s = capabilities_setup(c, host_env, workspace_opened, opened);
            &&& forall|k: int| #![trigger s.env[k]] 0 <= k < s.env.len() ==> exists|i: int|
                #![trigger host_env[i]]
                0 <= i < host_env.len() && c.env[i] == s.env[k].0 && host_env[i] == Some(s.env[k].1)
            &&& forall|i: int| 0 <= i < host_env.len() && host_env[i] is Some ==> s.env.contains(
                (c.env[i], #[trigger] host_env[i]->0),
            )
        }),
{
    let s = capabilities_setup(c, host_env, workspace_opened, opened);
    let items = Seq::new(c.env.len(), |i: int| (c.env[i], host_env[i]->0));
    let keep = Seq::new(c.env.len(), |i: int| host_env[i] is Some);
    assert forall|k: int| #![trigger s.env[k]] 0 <= k < s.env.len() implies exists|i: int|
        #![trigger host_env[i]]
        0 <= i < host_env.len() && c.env[i] == s.env[k].0 && host_env[i] == Some(s.env[k].1) by {
        lemma_select_from(items, keep, k);
        let i = choose|i: int| 0 <= i < items.len() && keep[i] && select(items, keep)[k] == items[i];
        assert(c.env[i] == s.env[k].0 && host_env[i] == Some(s.env[k].1));
    }
    assert forall|i: int| 0 <= i < host_env.len() && host_env[i] is Some implies s.env.contains(
        (c.env[i], #[trigger] host_env[i]->0),
    ) by {
        lemma_select_keeps(items, keep, i);
    }
}

/// Each path a plugin gets is a listed entry of the workspace that opened,
/// and only when the workspace opened, seen under the entry's own path: a
/// directory holds exactly the permissions its `read` and `mutate` flags
/// ask for, on itself and on its files; a file exactly those its `read`
/// and `write` flags ask for.  When the workspace opened, every listed
/// entry that opened is granted.
pub proof fn capabilities_preopens_follow_entries(
    c: CapabilitiesView,
    host_env: Seq<Option<Seq<char>>>,
    workspace_opened: bool,
    opened: Seq<bool>,
)
    requires
        opened.len() == c.access.dir.len() + c.access.file.len(),
    ensures
        ({
            let s = capabilities_setup(c, host_env, workspace_opened, opened);
            let dirs = c.access.dir;
            let files = c.access.file;
            &&& !workspace_opened ==> s.preopens.len() == 0
            &&& forall|k: int| 0 <= k < s.preopens.len() ==> {
                let p = #[trigger] s.preopens[k];
                let i = p.request as int;
                &&& 0 <= i < opened.len() && opened[i]
                &&& i < dirs.len() ==> grants_exactly(p.dir_perms, dirs[i].read, dirs[i].mutate)
                    && grants_exactly(p.file_perms, dirs[i].read, dirs[i].mutate) && p.guest_path
                    == dirs[i].path
                &&& i >= dirs.len() ==> grants_exactly(
                    p.dir_perms,
                    files[i - dirs.len()].read,
                    files[i - dirs.len()].write,
                ) && grants_exactly(p.file_perms, files[i - dirs.len()].read, files[i - dirs.len()].write)
                    && p.guest_path == files[i - dirs.len()].path
            }
            &&& workspace_opened ==> forall|i: int| 0 <= i < opened.len() && #[trigger] opened[i] ==> exists|k: int|
                0 <= k < s.preopens.len() && s.preopens[k].request == i
        }),
{
    let s = capabilities_setup(c, host_env, workspace_opened, opened);
    let a = c.access;
    let cands = access_candidates(a);
    assert forall|k: int| 0 <= k < s.preopens.len() implies ({
        let p = #[trigger] s.preopens[k];
        let i = p.request as int;
        &&& 0 <= i < opened.len() && opened[i]
        &&& i < a.dir.len() ==> grants_exactly(p.dir_perms, a.dir[i].read, a.dir[i].mutate)
            && grants_exactly(p.file_perms, a.dir[i].read, a.dir[i].mutate) && p.guest_path == a.dir[i].path
        &&& i >= a.dir.len() ==> grants_exactly(
            p.dir_perms,
            a.file[i - a.dir.len()].read,
            a.file[i - a.dir.len()].write,
        ) && grants_exactly(p.file_perms, a.file[i - a.dir.len()].read, a.file[i - a.dir.len()].write)
            && p.guest_path == a.file[i - a.dir.len()].path
    }) by {
        lemma_select_from(cands, opened, k);
        let i = choose|i: int| 0 <= i < cands.len() && opened[i] && select(cands, opened)[k] == cands[i];
        assert(s.preopens[k] == cands[i]);
    }
    if workspace_opened {
        assert forall|i: int| 0 <= i < opened.len() && #[trigger] opened[i] implies exists|k: int|
            0 <= k < s.preopens.len() && s.preopens[k].request == i by {
            lemma_select_keeps(cands, opened, i);
            let k = choose|k: int| 0 <= k < s.preopens.len() && s.preopens[k] == cands[i];
            assert(s.preopens[k].request == i);
        }
    }
}

/// A plugin is given a host variable only if it is named, and then with
/// the value the host has for it.
pub proof fn granted_env_is_named(keys: Seq<Seq<char>>, host: Seq<Option<Seq<char>>>, k: int)
    requires
        host.len() == keys.len(),
        0 <= k < env_grants(keys, host).len(),
    ensures
        exists|i: int|
            0 <= i < keys.len() && keys[i] == env_grants(keys, host)[k].0 && host[i] == Some(
                env_grants(keys, host)[k].1,
            ),
{
    let items = Seq::new(keys.len(), |i: int| (keys[i], host[i]->0));
    let keep = Seq::new(keys.len(), |i: int| host[i] is Some);
    lemma_select_from(items, keep, k);
    let i = choose|i: int| 0 <= i < items.len() && keep[i] && select(items, keep)[k] == items[i];
    assert(keys[i] == env_grants(keys, host)[k].0 && host[i] == Some(env_grants(keys, host)[k].1));
}

/// Every named variable that the host sets is given to the plugin, with
/// the host's value.
pub proof fn named_env_is_granted(keys: Seq<Seq<char>>, host: Seq<Option<Seq<char>>>, i: int)
    requires
        host.len() == keys.len(),
        0 <= i < keys.len(),
        host[i] is Some,
    ensures
        env_grants(keys, host).contains((keys[i], host[i]->0)),
{
    let items = Seq::new(keys.len(), |i: int| (keys[i], host[i]->0));
    let keep = Seq::new(keys.len(), |i: int| host[i] is Some);
    lemma_select_keeps(items, keep, i);
}

/// A plugin gets a directory only when the workspace opened and the
/// directory is a listed entry that opened: it uses that entry's handle,
/// sees it under the entry's path, and holds the permissions the entry's
/// flags give (reading only if the entry may be read, changing only if it
/// may be changed or written).
pub proof fn granted_access_is_listed(a: AccessView, workspace_opened: bool, opened: Seq<bool>, k: int)
    requires
        opened.len() == a.dir.len() + a.file.len(),
        0 <= k < granted_access(a, workspace_opened, opened).len(),
    ensures
        workspace_opened,
        exists|i: int|
            0 <= i < opened.len() && opened[i] && #[trigger] granted_access(a, workspace_opened, opened)[k] == (
            if i < a.dir.len() {
                dir_grant(a.dir[i], i as nat)
            } else {
                file_grant(a.file[i - a.dir.len()], i as nat)
            }),
{
    let cands = access_candidates(a);
    lemma_select_from(cands, opened, k);
    let i = choose|i: int| 0 <= i < cands.len() && opened[i] && select(cands, opened)[k] == cands[i];
    assert(0 <= i < opened.len() && opened[i] && granted_access(a, workspace_opened, opened)[k] == (
    if i < a.dir.len() {
        dir_grant(a.dir[i], i as nat)
    } else {
        file_grant(a.file[i - a.dir.len()], i as nat)
    }));
}

/// Every path a plugin's capabilities ask for is opened inside the
/// workspace: none is opened with the process's own authority.
pub proof fn requests_stay_in_workspace(a: AccessView)
    ensures
        forall|k: int| 0 <= k < access_requests(a).len() ==> #[trigger] access_requests(a)[k].base == OpenBase::Workspace,
{
}

/// When the workspace opened, every listed entry that opened is granted.
pub proof fn opened_access_is_granted(a: AccessView, opened: Seq<bool>, i: int)
    requires
        opened.len() == a.dir.len() + a.file.len(),
        0 <= i < opened.len(),
        opened[i],
    ensures
        granted_access(a, true, opened).contains(access_candidates(a)[i]),
{
    lemma_select_keeps(access_candidates(a), opened, i);
}

/// The environment a plugin gets: each allowed key with the host's value
/// (`host_env[i]` for the `i`-th key; `None` where unset), leaving out the
/// keys the host does not set.
pub fn granted_env(keys: &Vec<String>, host_env: &Vec<Option<String>>) -> (r: Vec<(String, String)>)
    requires
        host_env@.len() == keys@.len(),
    ensures
        text_pairs(r@) == env_grants(texts(keys@), option_texts(host_env@)),
{
    let ghost names = texts(keys@);
    let ghost host = option_texts(host_env@);
    let ghost items = Seq::new(names.len(), |i: int| (names[i], host[i]->0));
    let ghost keep = Seq::new(names.len(), |i: int| host[i] is Some);
    let mut r: Vec<(String, String)> = Vec::new();
    let mut i: usize = 0;
    while i < keys.len()
        invariant
            i <= keys.len(),
            host_env@.len() == keys@.len(),
            names == texts(keys@),
            host == option_texts(host_env@),
            items == Seq::new(names.len(), |i: int| (names[i], host[i]->0)),
            keep == Seq::new(names.len(), |i: int| host[i] is Some),
            text_pairs(r@) == select(items.take(i as int), keep.take(i as int)),
        decreases keys.len() - i,
    {
        proof {
            lemma_select_step(items, keep, i as int);
        }
        match &host_env[i] {
            Some(value) => {
                let pair = (keys[i].clone(), value.clone());
                proof {
                    lemma_text_pairs_push(r@, pair);
                }
                r.push(pair);
            },
            None => {},
        }
        i = i + 1;
    }
    assert(items.take(i as int) =~= items);
    assert(keep.take(i as int) =~= keep);
    r
}

impl FileAccess {
    /// A file entry for `path`, readable when `read`, writable when `write`.
    pub fn new(path: String, read: bool, write: bool) -> (r: Self)
        ensures
            r@ == (FileAccessView { path: path@, read, write }),
    {
        FileAccess { path, read, write }
    }

    /// The entry's path, whether it may be read and whether it may be written.
    pub fn parts(&self) -> (r: (&String, bool, bool))
        ensures
            r.0@ == self@.path && r.1 == self@.read && r.2 == self@.write,
    {
        (&self.path, self.read, self.write)
    }
}

impl DirAccess {
    /// A directory entry for `path`, readable when `read`, changeable when `mutate`.
    pub fn new(path: String, read: bool, mutate: bool) -> (r: Self)
        ensures
            r@ == (DirAccessView { path: path@, read, mutate }),
    {
        DirAccess { path, read, mutate }
    }

    /// The entry's path, whether it may be read and whether it may be changed.
    pub fn parts(&self) -> (r: (&String, bool, bool))
        ensures
            r.0@ == self@.path && r.1 == self@.read && r.2 == self@.mutate,
    {
        (&self.path, self.read, self.mutate)
    }
}

impl Access {
    /// The access to the given files and directories.
    pub fn new(file: Vec<FileAccess>, dir: Vec<DirAccess>) -> (r: Self)
        ensures
            r@ == (AccessView { file: file_views(file@), dir: dir_views(dir@) }),
    {
        Access { file, dir }
    }

    /// The file entries.
    pub fn file(&self) -> (r: &Vec<FileAccess>)
        ensures
            file_views(r@) == self@.file,
    {
        &self.file
    }

    /// The directory entries.
    pub fn dir(&self) -> (r: &Vec<DirAccess>)
        ensures
            dir_views(r@) == self@.dir,
    {
        &self.dir
    }

    /// No access at all.
    pub fn empty() -> (r: Self)
        ensures
            r@.file.len() == 0,
            r@.dir.len() == 0,
    {
        let r = Access { file: Vec::new(), dir: Vec::new() };
        assert(file_views(r.file@) =~= Seq::empty());
        assert(dir_views(r.dir@) =~= Seq::empty());
        r
    }

    /// The paths to open in the workspace, in order: the directories, then
    /// the files.  `push` takes whether each of them opened.
    pub fn open_requests(&self) -> (r: Vec<OpenRequest>)
        ensures
            request_views(r@) == access_requests(self@),
    {
        let ghost want = access_requests(self@);
        let mut r: Vec<OpenRequest> = Vec::new();
        let mut i: usize = 0;
        while i < self.dir.len()
            invariant
                i <= self.dir.len(),
                want == access_requests(self@),
                request_views(r@) == want.take(i as int),
            decreases self.dir.len() - i,
        {
            let req = OpenRequest {
                path: self.dir[i].path.clone(),
                base: OpenBase::Workspace,
                kind: OpenKind::Dir,
            };
            proof {
                lemma_request_views_push(r@, req);
                assert(want.take(i as int + 1) =~= want.take(i as int).push(req@));
            }
            r.push(req);
            i = i + 1;
        }
        let n = self.dir.len();
        let mut j: usize = 0;
        while j < self.file.len()
            invariant
                j <= self.file.len(),
                n == self.dir.len(),
                want == access_requests(self@),
                request_views(r@) == want.take(n + j),
            decreases self.file.len() - j,
        {
            let req = OpenRequest {
                path: self.file[j].path.clone(),
                base: OpenBase::Workspace,
                kind: OpenKind::File { read: self.file[j].read, write: self.file[j].write },
            };
            proof {
                lemma_request_views_push(r@, req);
                assert(want.take(n + j + 1) =~= want.take(n + j).push(req@));
            }
            r.push(req);
            j = j + 1;
        }
        assert(want.take(n + j) =~= want);
        r
    }

    /// The directories and files the plugin gets: `workspace_opened` tells
    /// whether the workspace opened, `opened[k]` whether the `k`-th path of
    /// `open_requests` opened in it.
    pub fn push(&self, workspace_opened: bool, opened: &Vec<bool>) -> (r: Vec<Preopen>)
        requires
            opened@.len() == self@.dir.len() + self@.file.len(),
        ensures
            preopen_views(r@) == granted_access(self@, workspace_opened, opened@),
    {
        let mut r: Vec<Preopen> = Vec::new();
        if !workspace_opened {
            assert(preopen_views(r@) =~= Seq::empty());
            return r;
        }
        let ghost cands = access_candidates(self@);
        let n = self.dir.len();
        let mut i: usize = 0;
        while i < n
            invariant
                i <= n,
                n == self.dir.len(),
                opened@.len() == self.dir.len() + self.file.len(),
                cands == access_candidates(self@),
                preopen_views(r@) == select(cands.take(i as int), opened@.take(i as int)),
            decreases n - i,
        {
            proof {
                lemma_select_step(cands, opened@, i as int);
            }
            if opened[i] {
                let d = &self.dir[i];
                let p = Preopen {
                    request: i,
                    dir_perms: dir_perms_union(d.read, d.mutate),
                    file_perms: file_perms_union(d.read, d.mutate),
                    guest_path: d.path.clone(),
                };
                proof {
                    lemma_preopen_views_push(r@, p);
                    assert(p@ == cands[i as int]);
                }
                r.push(p);
            }
            i = i + 1;
        }
        let total = opened.len();
        let mut j: usize = 0;
        while j < self.file.len()
            invariant
                j <= self.file.len(),
                n == self.dir.len(),
                total == opened@.len(),
                opened@.len() == self.dir.len() + self.file.len(),
                cands == access_candidates(self@),
                preopen_views(r@) == select(cands.take(n + j), opened@.take(n + j)),
            decreases self.file.len() - j,
        {
            proof {
                lemma_select_step(cands, opened@, n + j);
            }
            if opened[n + j] {
                let f = &self.file[j];
                let p = Preopen {
                    request: n + j,
                    dir_perms: dir_perms_union(f.read, f.write),
                    file_perms: file_perms_union(f.read, f.write),
                    guest_path: f.path.clone(),
                };
                proof {
                    lemma_preopen_views_push(r@, p);
                    assert(p@ == cands[n + j]);
                }
                r.push(p);
            }
            j = j + 1;
        }
        assert(cands.take(n + j) =~= cands);
        assert(opened@.take(n + j) =~= opened@);
        r
    }
}

impl Capabilities {
    /// The capabilities with the given streams, arguments, variable names and access.
    pub fn new(
        stdin: bool,
        stdout: bool,
        stderr: bool,
        args: Vec<String>,
        env: Vec<String>,
        access: Access,
    ) -> (r: Self)
        ensures
            r@ == (CapabilitiesView {
                stdin,
                stdout,
                stderr,
                args: texts(args@),
                env: texts(env@),
                access: access@,
            }),
    {
        Capabilities { stdin, stdout, stderr, args, env, access }
    }

    /// The capabilities that grant nothing.
    pub fn empty() -> (r: Self)
        ensures
            !r@.stdin && !r@.stdout && !r@.stderr,
            r@.args.len() == 0,
            r@.env.len() == 0,
            r@.access.file.len() == 0,
            r@.access.dir.len() == 0,
    {
        let r = Capabilities {
            stdin: false,
            stdout: false,
            stderr: false,
            args: Vec::new(),
            env: Vec::new(),
            access: Access::empty(),
        };
        assert(texts(r.args@) =~= Seq::empty());
        assert(texts(r.env@) =~= Seq::empty());
        r
    }

    /// Where the capabilities for `path` are kept: `path` with the extension `toml`.
    pub fn file_path(path: &str) -> (r: String)
        ensures
            r@ == crate::manifest::manifest_file(path@),
    {
        proof {
            crate::paths::lemma_plain_extensions();
        }
        crate::paths::with_extension(path, "toml")
    }

    /// Whether the host's standard input is allowed.
    pub fn stdin(&self) -> (r: bool)
        ensures
            r == self@.stdin,
    {
        self.stdin
    }

    /// Whether the host's standard output is allowed.
    pub fn stdout(&self) -> (r: bool)
        ensures
            r == self@.stdout,
    {
        self.stdout
    }

    /// Whether the host's standard error is allowed.
    pub fn stderr(&self) -> (r: bool)
        ensures
            r == self@.stderr,
    {
        self.stderr
    }

    /// The arguments listed.
    pub fn args(&self) -> (r: &Vec<String>)
        ensures
            texts(r@) == self@.args,
    {
        &self.args
    }

    /// The names of the host variables that may be passed on.
    pub fn env(&self) -> (r: &Vec<String>)
        ensures
            texts(r@) == self@.env,
    {
        &self.env
    }

    /// The workspace access.
    pub fn access(&self) -> (r: &Access)
        ensures
            r@ == self@.access,
    {
        &self.access
    }

    /// The standard input the plugin gets.
    pub fn push_stdin(&self) -> (r: InputSource)
        ensures
            r == stdin_source(self@.stdin),
    {
        if self.stdin {
            InputSource::Inherit
        } else {
            InputSource::Empty
        }
    }

    /// The standard output the plugin gets.
    pub fn push_stdout(&self) -> (r: OutputTarget)
        ensures
            r == output_target(self@.stdout),
    {
        if self.stdout {
            OutputTarget::Inherit
        } else {
            OutputTarget::Sink
        }
    }

    /// The standard error the plugin gets.
    pub fn push_stderr(&self) -> (r: OutputTarget)
        ensures
            r == output_target(self@.stderr),
    {
        if self.stderr {
            OutputTarget::Inherit
        } else {
            OutputTarget::Sink
        }
    }

    /// The environment the plugin gets, given the host's value of each
    /// allowed key (`host_env[i]` for the `i`-th key; `None` where unset).
    pub fn push_env(&self, host_env: &Vec<Option<String>>) -> (r: Vec<(String, String)>)
        requires
            host_env@.len() == self@.env.len(),
        ensures
            text_pairs(r@) == env_grants(self@.env, option_texts(host_env@)),
    {
        granted_env(&self.env, host_env)
    }

    /// The paths to open in the workspace, in order: the directories, then
    /// the files.  `push_access` takes whether each of them opened.
    pub fn open_requests(&self) -> (r: Vec<OpenRequest>)
        ensures
            request_views(r@) == access_requests(self@.access),
    {
        self.access.open_requests()
    }

    /// The directories and files the plugin gets: `workspace_opened` tells
    /// whether the workspace opened, `opened[k]` whether the `k`-th path of
    /// `open_requests` opened in it.
    pub fn push_access(&self, workspace_opened: bool, opened: &Vec<bool>) -> (r: Vec<Preopen>)
        requires
            opened@.len() == self@.access.dir.len() + self@.access.file.len(),
        ensures
            preopen_views(r@) == granted_access(self@.access, workspace_opened, opened@),
    {
        self.access.push(workspace_opened, opened)
    }

    /// The whole context the plugin gets, in the order the streams, the
    /// environment and the access are granted.
    pub fn push_all(&self, host_env: &Vec<Option<String>>, workspace_opened: bool, opened: &Vec<bool>) -> (r: WasiSetup)
        requires
            host_env@.len() == self@.env.len(),
            opened@.len() == self@.access.dir.len() + self@.access.file.len(),
        ensures
            r@ == capabilities_setup(self@, option_texts(host_env@), workspace_opened, opened@),
    {
        let stdin = self.push_stdin();
        let stdout = self.push_stdout();
        let stderr = self.push_stderr();
        let env = self.push_env(host_env);
        let preopens = self.push_access(workspace_opened, opened);
        let r = WasiSetup { stdin: Some(stdin), stdout: Some(stdout), stderr: Some(stderr), args: Vec::new(), env, preopens };
        assert(texts(r.args@) =~= Seq::empty());
        r
    }
}

} // verus!
