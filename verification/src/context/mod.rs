//! The context a plugin runs in, made from its manifest.
//!
//! Only what the manifest names is granted: the named host variables that
//! are set, the host arguments when allowed, the host streams that are
//! allowed, and the directories and files of the root that opened.  A
//! path that does not open is left out.

pub mod error;

use vstd::prelude::*;
use crate::manifest::fs::{dir_views, file_views, DirAccessView, FileAccessView, FsAccessView};
use crate::manifest::{Manifest, ManifestView};
use crate::perms::{dir_perms, dir_perms_none, file_perms, file_perms_none, grants_exactly, perm_bits};
use crate::runtime::{env_grants, granted_env, option_texts, Access as WorkspaceAccess, AccessView as WorkspaceAccessView};
use crate::setup::{
    lemma_preopen_views_push, lemma_request_views_push, lemma_select_step,
    lemma_select_from, lemma_select_keeps,
    preopen_views, request_views, select, texts, copy_strings, InputSource, OpenBase,
    OpenKind, OpenRequest, OpenRequestView, OutputTarget, Preopen, PreopenView, SetupView,
    WasiSetup,
};

verus! {

/// What a plugin may use, as it is described on disk.
pub struct Capabilities {
    args: Vec<String>,
    access: WorkspaceAccess,
}

/// The model of a `Capabilities`.
pub struct CapabilitiesView {
    pub args: Seq<Seq<char>>,
    pub access: WorkspaceAccessView,
}

impl View for Capabilities {
    type V = CapabilitiesView;

    closed spec fn view(&self) -> CapabilitiesView {
        CapabilitiesView { args: texts(self.args@), access: self.access@ }
    }
}

impl Capabilities {
    /// The capabilities with the given arguments and access.
    pub fn new(args: Vec<String>, access: WorkspaceAccess) -> (r: Self)
        ensures
            r@ == (CapabilitiesView { args: texts(args@), access: access@ }),
    {
        Capabilities { args, access }
    }

    /// The directories and files the plugin gets from its access, as the
    /// workspace access grants them.
    pub fn push(&self, workspace_opened: bool, opened: &Vec<bool>) -> (r: Vec<Preopen>)
        requires
            opened@.len() == self@.access.dir.len() + self@.access.file.len(),
        ensures
            preopen_views(r@) == crate::runtime::granted_access(self@.access, workspace_opened, opened@),
    {
        self.access.push(workspace_opened, opened)
    }
}

/// How a directory entry is opened: as a directory under the root.
pub open spec fn root_dir_request(d: DirAccessView) -> OpenRequestView {
    OpenRequestView { path: d.path, base: OpenBase::Workspace, kind: OpenKind::Dir }
}

/// How a file entry is opened: as a file under the root, with its read and write options.
pub open spec fn root_file_request(f: FileAccessView) -> OpenRequestView {
    OpenRequestView {
        path: f.path,
        base: OpenBase::Workspace,
        kind: OpenKind::File { read: f.read, write: f.write },
    }
}

/// The paths to open under the root: the directories, then the files.
pub open spec fn root_requests(a: FsAccessView) -> Seq<OpenRequestView> {
    Seq::new(a.dir.len(), |i: int| root_dir_request(a.dir[i])) + Seq::new(
        a.file.len(),
        |j: int| root_file_request(a.file[j]),
    )
}

/// The preopen each request would give if it opened: a directory gets
/// directory permissions from its flags and no file permission; a file gets
/// no directory permission and file permissions from its flags; each is
/// seen under its own path.
pub open spec fn root_candidates(a: FsAccessView) -> Seq<PreopenView> {
    Seq::new(
        a.dir.len(),
        |i: int|
            PreopenView {
                request: i as nat,
                dir_perms: perm_bits(a.dir[i].read, a.dir[i].mutate),
                file_perms: perm_bits(false, false),
                guest_path: a.dir[i].path,
            },
    ) + Seq::new(
        a.file.len(),
        |j: int|
            PreopenView {
                request: (a.dir.len() + j) as nat,
                dir_perms: perm_bits(false, false),
                file_perms: perm_bits(a.file[j].read, a.file[j].write),
                guest_path: a.file[j].path,
            },
    )
}

/// A host stream the plugin gets when allowed; otherwise the builder's default.
pub open spec fn inherited_input(allowed: bool) -> Option<InputSource> {
    if allowed {
        Some(InputSource::Inherit)
    } else {
        None
    }
}

/// A host output stream the plugin gets when allowed; otherwise the builder's default.
pub open spec fn inherited_output(allowed: bool) -> Option<OutputTarget> {
    if allowed {
        Some(OutputTarget::Inherit)
    } else {
        None
    }
}

/// The context a plugin gets from its manifest, given the host's
/// arguments, the host's value of each named variable and whether each
/// path of `context_requests` opened.
pub open spec fn context_setup_of(
    m: ManifestView,
    host_args: Seq<Seq<char>>,
    host_vars: Seq<Option<Seq<char>>>,
    opened: Seq<bool>,
) -> SetupView {
    SetupView {
        stdin: inherited_input(m.access.io.stdin),
        stdout: inherited_output(m.access.io.stdout),
        stderr: inherited_output(m.access.io.stderr),
        args: if m.access.env.args {
            host_args
        } else {
            Seq::empty()
        },
        env: env_grants(m.access.env.var, host_vars),
        preopens: select(root_candidates(m.access.fs), opened),
    }
}

/// A plugin gets a path of the root only if it is a listed entry that
/// opened: it uses that entry's handle and sees it under the entry's own
/// path; a directory gets the directory permissions its flags give and no
/// file permission, a file no directory permission and the file
/// permissions its flags give.
pub proof fn context_grants_only_listed(
    m: ManifestView,
    host_args: Seq<Seq<char>>,
    host_vars: Seq<Option<Seq<char>>>,
    opened: Seq<bool>,
    k: int,
)
    requires
        opened.len() == m.access.fs.dir.len() + m.access.fs.file.len(),
        0 <= k < context_setup_of(m, host_args, host_vars, opened).preopens.len(),
    ensures
        exists|i: int|
            0 <= i < opened.len() && opened[i] && #[trigger] context_setup_of(m, host_args, host_vars, opened).preopens[k]
                == root_candidates(m.access.fs)[i],
{
    let cands = root_candidates(m.access.fs);
    lemma_select_from(cands, opened, k);
}

/// The streams a plugin gets from its manifest are the host's exactly for
/// the streams the manifest allows, the others staying as the builder has
/// them; it gets the host's arguments exactly when the manifest allows
/// them, and none otherwise.
pub proof fn context_streams_and_args_follow_manifest(
    m: ManifestView,
    host_args: Seq<Seq<char>>,
    host_vars: Seq<Option<Seq<char>>>,
    opened: Seq<bool>,
)
    ensures
        ({
            let s = context_setup_of(m, host_args, host_vars, opened);
            &&& (s.stdin == Some(InputSource::Inherit)) == m.access.io.stdin
            &&& (s.stdin is None) == !m.access.io.stdin
            &&& (s.stdout == Some(OutputTarget::Inherit)) == m.access.io.stdout
            &&& (s.stdout is None) == !m.access.io.stdout
            &&& (s.stderr == Some(OutputTarget::Inherit)) == m.access.io.stderr
            &&& (s.stderr is None) == !m.access.io.stderr
            &&& m.access.env.args ==> s.args == host_args
            &&& !m.access.env.args ==> s.args.len() == 0
        }),
{
}

/// A plugin gets a host variable from its manifest only if the manifest
/// names it, and then with the host's value; and it gets every named
/// variable that the host sets.
pub proof fn context_env_is_named(
    m: ManifestView,
    host_args: Seq<Seq<char>>,
    host_vars: Seq<Option<Seq<char>>>,
    opened: Seq<bool>,
)
    requires
        host_vars.len() == m.access.env.var.len(),
    ensures
        ({
            let s = context_setup_of(m, host_args, host_vars, opened);
            &&& forall|k: int| #![trigger s.env[k]] 0 <= k < s.env.len() ==> exists|i: int|
                #![trigger host_vars[i]]
                0 <= i < host_vars.len() && m.access.env.var[i] == s.env[k].0 && host_vars[i] == Some(
                    s.env[k].1,
                )
            &&& forall|i: int| 0 <= i < host_vars.len() && host_vars[i] is Some ==> s.env.contains(
                (m.access.env.var[i], #[trigger] host_vars[i]->0),
            )
        }),
{
    let s = context_setup_of(m, host_args, host_vars, opened);
    let keys = m.access.env.var;
    let items = Seq::new(keys.len(), |i: int| (keys[i], host_vars[i]->0));
    let keep = Seq::new(keys.len(), |i: int| host_vars[i] is Some);
    assert forall|k: int| #![trigger s.env[k]] 0 <= k < s.env.len() implies exists|i: int|
        #![trigger host_vars[i]]
        0 <= i < host_vars.len() && m.access.env.var[i] == s.env[k].0 && host_vars[i] == Some(
            s.env[k].1,
        ) by {
        lemma_select_from(items, keep, k);
        let i = choose|i: int| 0 <= i < items.len() && keep[i] && select(items, keep)[k] == items[i];
        assert(m.access.env.var[i] == s.env[k].0 && host_vars[i] == Some(s.env[k].1));
    }
    assert forall|i: int| 0 <= i < host_vars.len() && host_vars[i] is Some implies s.env.contains(
        (m.access.env.var[i], #[trigger] host_vars[i]->0),
    ) by {
        lemma_select_keeps(items, keep, i);
    }
}

/// Each path a plugin gets from its manifest is a listed entry that
/// opened, seen under the entry's own path: a directory holds exactly the
/// directory permissions its `read` and `mutate` flags ask for and no file
/// permission; a file holds no directory permission and exactly the file
/// permissions its `read` and `write` flags ask for.  Every listed entry
/// that opened is granted.
pub proof fn context_preopens_follow_entries(
    m: ManifestView,
    host_args: Seq<Seq<char>>,
    host_vars: Seq<Option<Seq<char>>>,
    opened: Seq<bool>,
)
    requires
        opened.len() == m.access.fs.dir.len() + m.access.fs.file.len(),
    ensures
        ({
            let s = context_setup_of(m, host_args, host_vars, opened);
            let dirs = m.access.fs.dir;
            let files = m.access.fs.file;
            &&& forall|k: int| 0 <= k < s.preopens.len() ==> {
                let p = #[trigger] s.preopens[k];
                let i = p.request as int;
                &&& 0 <= i < opened.len() && opened[i]
                &&& i < dirs.len() ==> grants_exactly(p.dir_perms, dirs[i].read, dirs[i].mutate)
                    && p.file_perms == 0 && p.guest_path == dirs[i].path
                &&& i >= dirs.len() ==> p.dir_perms == 0 && grants_exactly(
                    p.file_perms,
                    files[i - dirs.len()].read,
                    files[i - dirs.len()].write,
                ) && p.guest_path == files[i - dirs.len()].path
            }
            &&& forall|i: int| 0 <= i < opened.len() && #[trigger] opened[i] ==> exists|k: int|
                0 <= k < s.preopens.len() && s.preopens[k].request == i
        }),
{
    let s = context_setup_of(m, host_args, host_vars, opened);
    let cands = root_candidates(m.access.fs);
    assert forall|k: int| 0 <= k < s.preopens.len() implies ({
        let p = #[trigger] s.preopens[k];
        let i = p.request as int;
        &&& 0 <= i < opened.len() && opened[i]
        &&& i < m.access.fs.dir.len() ==> grants_exactly(p.dir_perms, m.access.fs.dir[i].read, m.access.fs.dir[i].mutate)
            && p.file_perms == 0 && p.guest_path == m.access.fs.dir[i].path
        &&& i >= m.access.fs.dir.len() ==> p.dir_perms == 0 && grants_exactly(
            p.file_perms,
            m.access.fs.file[i - m.access.fs.dir.len()].read,
            m.access.fs.file[i - m.access.fs.dir.len()].write,
        ) && p.guest_path == m.access.fs.file[i - m.access.fs.dir.len()].path
    }) by {
        lemma_select_from(cands, opened, k);
        let i = choose|i: int| 0 <= i < cands.len() && opened[i] && select(cands, opened)[k] == cands[i];
        assert(s.preopens[k] == cands[i]);
    }
    assert forall|i: int| 0 <= i < opened.len() && #[trigger] opened[i] implies exists|k: int|
        0 <= k < s.preopens.len() && s.preopens[k].request == i by {
        lemma_select_keeps(cands, opened, i);
        let k = choose|k: int| 0 <= k < s.preopens.len() && s.preopens[k] == cands[i];
        assert(s.preopens[k].request == i);
    }
}

/// Every path a manifest's context asks for is opened under the root: none
/// is opened with the process's own authority.
pub proof fn requests_stay_under_root(a: FsAccessView)
    ensures
        forall|k: int| 0 <= k < root_requests(a).len() ==> #[trigger] root_requests(a)[k].base == OpenBase::Workspace,
{
}

/// The paths to open under the root before `context_setup`: the
/// directories, then the files.
pub fn context_requests(manifest: &Manifest) -> (r: Vec<OpenRequest>)
    ensures
        request_views(r@) == root_requests(manifest@.access.fs),
{
    let fs = manifest.access().fs();
    let dirs = fs.dir();
    let files = fs.file();
    let ghost want = root_requests(manifest@.access.fs);
    let mut r: Vec<OpenRequest> = Vec::new();
    let mut i: usize = 0;
    while i < dirs.len()
        invariant
            i <= dirs.len(),
            dir_views(dirs@) == manifest@.access.fs.dir,
            want == root_requests(manifest@.access.fs),
            request_views(r@) == want.take(i as int),
        decreases dirs.len() - i,
    {
        let req = OpenRequest { path: dirs[i].path().clone(), base: OpenBase::Workspace, kind: OpenKind::Dir };
        proof {
            lemma_request_views_push(r@, req);
            assert(want.take(i as int + 1) =~= want.take(i as int).push(req@));
        }
        r.push(req);
        i = i + 1;
    }
    let n = dirs.len();
    let mut j: usize = 0;
    while j < files.len()
        invariant
            j <= files.len(),
            n == dirs.len(),
            dir_views(dirs@) == manifest@.access.fs.dir,
            file_views(files@) == manifest@.access.fs.file,
            want == root_requests(manifest@.access.fs),
            request_views(r@) == want.take(n + j),
        decreases files.len() - j,
    {
        let f = &files[j];
        let req = OpenRequest {
            path: f.path().clone(),
            base: OpenBase::Workspace,
            kind: OpenKind::File { read: f.read(), write: f.write() },
        };
        proof {
            lemma_request_views_push(r@, req);
            assert(want.take(n + j + 1) =~= want.take(n + j).push(req@));
        }
        r.push(req);
        j = j + 1;
    }
    assert(want.take(n + j) =~= want);
    r
}

/// The context a plugin gets from its manifest: `host_args` are the
/// host's arguments, `host_vars[i]` the host's value of the `i`-th named
/// variable (`None` where it cannot be read), `opened[k]` whether the
/// `k`-th path of `context_requests` opened.
pub fn context_setup(
    manifest: &Manifest,
    host_args: &Vec<String>,
    host_vars: &Vec<Option<String>>,
    opened: &Vec<bool>,
) -> (r: WasiSetup)
    requires
        host_vars@.len() == manifest@.access.env.var.len(),
        opened@.len() == manifest@.access.fs.dir.len() + manifest@.access.fs.file.len(),
    ensures
        r@ == context_setup_of(manifest@, texts(host_args@), option_texts(host_vars@), opened@),
{
    let access = manifest.access();
    let names = access.env().var_names();
    let env = granted_env(&names, host_vars);
    let args = if access.env().args().enabled() {
        copy_strings(host_args)
    } else {
        Vec::new()
    };
    let stdin = if access.io().stdin() {
        Some(InputSource::Inherit)
    } else {
        None
    };
    let stdout = if access.io().stdout() {
        Some(OutputTarget::Inherit)
    } else {
        None
    };
    let stderr = if access.io().stderr() {
        Some(OutputTarget::Inherit)
    } else {
        None
    };
    let preopens = root_preopens(manifest, opened);
    let r = WasiSetup { stdin, stdout, stderr, args, env, preopens };
    assert(texts(r.args@) =~= (if manifest@.access.env.args { texts(host_args@) } else { Seq::empty() }));
    r
}

/// The directories and files of the root that opened, each with its permissions.
fn root_preopens(manifest: &Manifest, opened: &Vec<bool>) -> (r: Vec<Preopen>)
    requires
        opened@.len() == manifest@.access.fs.dir.len() + manifest@.access.fs.file.len(),
    ensures
        preopen_views(r@) == select(root_candidates(manifest@.access.fs), opened@),
{
    let fs = manifest.access().fs();
    let dirs = fs.dir();
    let files = fs.file();
    let ghost cands = root_candidates(manifest@.access.fs);
    let total = opened.len();
    let n = dirs.len();
    let mut r: Vec<Preopen> = Vec::new();
    let mut i: usize = 0;
    assert(preopen_views(r@) =~= Seq::empty());
    assert(cands.take(0) =~= Seq::empty());
    while i < n
        invariant
            i <= n,
            n == dirs.len(),
            total == opened@.len(),
            dir_views(dirs@) == manifest@.access.fs.dir,
            file_views(files@) == manifest@.access.fs.file,
            opened@.len() == dirs.len() + files.len(),
            cands == root_candidates(manifest@.access.fs),
            preopen_views(r@) == select(cands.take(i as int), opened@.take(i as int)),
        decreases n - i,
    {
        proof {
            lemma_select_step(cands, opened@, i as int);
        }
        if opened[i] {
            let d = &dirs[i];
            let perms = dir_perms(d.read(), d.mutate());
            let file_perms = file_perms_none();
            let p = Preopen { request: i, dir_perms: perms, file_perms, guest_path: d.path().clone() };
            proof {
                lemma_preopen_views_push(r@, p);
                assert(p@ == cands[i as int]);
            }
            r.push(p);
        }
        i = i + 1;
    }
    let mut j: usize = 0;
    while j < files.len()
        invariant
            j <= files.len(),
            n == dirs.len(),
            total == opened@.len(),
            dir_views(dirs@) == manifest@.access.fs.dir,
            file_views(files@) == manifest@.access.fs.file,
            opened@.len() == dirs.len() + files.len(),
            cands == root_candidates(manifest@.access.fs),
            preopen_views(r@) == select(cands.take(n + j), opened@.take(n + j)),
        decreases files.len() - j,
    {
        proof {
            lemma_select_step(cands, opened@, n + j);
        }
        if opened[n + j] {
            let f = &files[j];
            let perms = dir_perms_none();
            let file_perms = file_perms(f.read(), f.write());
            let p = Preopen { request: n + j, dir_perms: perms, file_perms, guest_path: f.path().clone() };
            proof {
                lemma_preopen_views_push(r@, p);
                assert(p@ == cands[n + j]);
            }
            r.push(p);
        }
        j = j + 1;
    }
    assert(cands.take(n + j) =~= cands);
    assert(opened@.take(n + j) =~= opened@);
    r
}

} // verus!
