//! The whole access a manifest grants.

use vstd::prelude::*;
use vstd::string::StringExecFns;
use crate::manifest::env::{granted_args, lookup_texts, var_grants, EnvAccess, EnvAccessView};
use crate::manifest::fs::{fs_grants, fs_requests, outcome_texts, FsAccess, FsAccessView};
use crate::manifest::io::{piped_input, piped_output, IoAccess, IoAccessView};
use crate::manifest::fs::{fs_items, dir_preopen, file_preopen};
use crate::paths::joined_path;
use crate::perms::grants_exactly;
use crate::setup::{InputSource, OutputTarget, PreopenView, lemma_collect_ok, request_views, OpenRequest, SetupView, WasiSetup};

verus! {

/// What a plugin may use of its host: files and directories, environment
/// and arguments, standard streams.
pub struct Access {
    fs: FsAccess,
    env: EnvAccess,
    io: IoAccess,
}

/// Why access could not be granted: a path did not open, or a named
/// environment variable could not be read.  Each carries the host error's text.
pub enum AccessError {
    Io(String),
    Env(String),
}

/// The model of an `Access`.
pub struct AccessView {
    pub fs: FsAccessView,
    pub env: EnvAccessView,
    pub io: IoAccessView,
}

/// The model of an `AccessError`.
pub enum AccessErrorView {
    Io(Seq<char>),
    Env(Seq<char>),
}

impl View for Access {
    type V = AccessView;

    closed spec fn view(&self) -> AccessView {
        AccessView { fs: self.fs@, env: self.env@, io: self.io@ }
    }
}

impl View for AccessError {
    type V = AccessErrorView;

    open spec fn view(&self) -> AccessErrorView {
        match self {
            AccessError::Io(e) => AccessErrorView::Io(e@),
            AccessError::Env(e) => AccessErrorView::Env(e@),
        }
    }
}

/// The text an access error is shown as.
pub open spec fn access_error_text(e: AccessErrorView) -> Seq<char> {
    match e {
        AccessErrorView::Io(m) => "IO error: "@ + m,
        AccessErrorView::Env(m) => "Env error: "@ + m,
    }
}

/// What a plugin gets: the streams, the host arguments when allowed, the
/// named variables and the files and directories; or, if a variable could
/// not be read, that error; or else, if a path did not open, the first such error.
pub open spec fn access_outcome(
    a: AccessView,
    host_args: Seq<Seq<char>>,
    lookups: Seq<Result<Seq<char>, Seq<char>>>,
    outcomes: Seq<Result<(), Seq<char>>>,
) -> Result<SetupView, AccessErrorView> {
    match var_grants(a.env.var, lookups) {
        Err(e) => Err(AccessErrorView::Env(e)),
        Ok(env) => match fs_grants(a.fs, outcomes) {
            Err(e) => Err(AccessErrorView::Io(e)),
            Ok(preopens) => Ok(
                SetupView {
                    stdin: Some(piped_input(a.io.stdin)),
                    stdout: Some(piped_output(a.io.stdout)),
                    stderr: Some(piped_output(a.io.stderr)),
                    args: granted_args(a.env.args, host_args),
                    env,
                    preopens,
                },
            ),
        },
    }
}

/// Access is refused when a named variable cannot be read; otherwise it is
/// refused exactly when a listed path did not open.
pub proof fn refused_exactly_on_failure(
    a: AccessView,
    host_args: Seq<Seq<char>>,
    lookups: Seq<Result<Seq<char>, Seq<char>>>,
    outcomes: Seq<Result<(), Seq<char>>>,
)
    requires
        lookups.len() == a.env.var.len(),
        outcomes.len() == a.fs.dir.len() + a.fs.file.len(),
    ensures
        (exists|i: int| 0 <= i < lookups.len() && lookups[i] is Err) ==> access_outcome(a, host_args, lookups, outcomes) matches Err(AccessErrorView::Env(_)),
        (forall|i: int| 0 <= i < lookups.len() ==> lookups[i] is Ok) ==> (access_outcome(a, host_args, lookups, outcomes) is Err <==> exists|k: int| 0 <= k < outcomes.len() && outcomes[k] is Err),
{
    let keys = a.env.var;
    let vitems = Seq::new(
        keys.len(),
        |i: int|
            match lookups[i] {
                Ok(v) => Ok((keys[i], v)),
                Err(e) => Err(e),
            },
    );
    lemma_collect_ok(vitems);
    if exists|i: int| 0 <= i < lookups.len() && lookups[i] is Err {
        let i = choose|i: int| 0 <= i < lookups.len() && lookups[i] is Err;
        assert(!(vitems[i] is Ok));
    }
    if forall|i: int| 0 <= i < lookups.len() ==> lookups[i] is Ok {
        assert forall|i: int| 0 <= i < vitems.len() implies vitems[i] is Ok by {
            assert(lookups[i] is Ok);
        }
        let fitems = fs_items(a.fs, outcomes);
        lemma_collect_ok(fitems);
        if exists|k: int| 0 <= k < outcomes.len() && outcomes[k] is Err {
            let k = choose|k: int| 0 <= k < outcomes.len() && outcomes[k] is Err;
            assert(!(fitems[k] is Ok));
        } else {
            assert forall|k: int| 0 <= k < fitems.len() implies fitems[k] is Ok by {
                assert(outcomes[k] is Ok);
            }
        }
    }
}

/// When access is granted, the plugin's environment holds exactly the
/// named variables, in order, each with the value the host has for it; and
/// every listed path is preopened, directories first, in order.
pub proof fn granted_access_is_complete(
    a: AccessView,
    host_args: Seq<Seq<char>>,
    lookups: Seq<Result<Seq<char>, Seq<char>>>,
    outcomes: Seq<Result<(), Seq<char>>>,
)
    requires
        lookups.len() == a.env.var.len(),
        outcomes.len() == a.fs.dir.len() + a.fs.file.len(),
        access_outcome(a, host_args, lookups, outcomes) is Ok,
    ensures
        ({
            let s = access_outcome(a, host_args, lookups, outcomes)->Ok_0;
            &&& s.env.len() == a.env.var.len()
            &&& forall|i: int| 0 <= i < s.env.len() ==> s.env[i].0 == a.env.var[i] && lookups[i] == Ok::<Seq<char>, Seq<char>>(s.env[i].1)
            &&& s.preopens.len() == a.fs.dir.len() + a.fs.file.len()
            &&& forall|k: int| 0 <= k < a.fs.dir.len() ==> s.preopens[k] == dir_preopen(a.fs.dir[k], k as nat)
            &&& forall|j: int| 0 <= j < a.fs.file.len() ==> s.preopens[a.fs.dir.len() + j] == file_preopen(a.fs.file[j], (a.fs.dir.len() + j) as nat)
        }),
{
    let keys = a.env.var;
    let vitems = Seq::new(
        keys.len(),
        |i: int|
            match lookups[i] {
                Ok(v) => Ok((keys[i], v)),
                Err(e) => Err(e),
            },
    );
    lemma_collect_ok(vitems);
    let fitems = fs_items(a.fs, outcomes);
    lemma_collect_ok(fitems);
    let s = access_outcome(a, host_args, lookups, outcomes)->Ok_0;
    assert forall|i: int| 0 <= i < s.env.len() implies s.env[i].0 == a.env.var[i] && lookups[i] == Ok::<Seq<char>, Seq<char>>(s.env[i].1) by {
        assert(vitems[i] == Ok::<(Seq<char>, Seq<char>), Seq<char>>(s.env[i]));
    }
    assert forall|k: int| 0 <= k < a.fs.dir.len() implies s.preopens[k] == dir_preopen(a.fs.dir[k], k as nat) by {
        assert(fitems[k] == Ok::<PreopenView, Seq<char>>(s.preopens[k]));
    }
    assert forall|j: int| 0 <= j < a.fs.file.len() implies s.preopens[a.fs.dir.len() + j] == file_preopen(a.fs.file[j], (a.fs.dir.len() + j) as nat) by {
        let k = a.fs.dir.len() + j;
        assert(fitems[k] == Ok::<PreopenView, Seq<char>>(s.preopens[k]));
    }
}

/// When access is granted, the plugin reads the host's standard input
/// (through a pipe) exactly when the manifest allows it, and an empty input
/// otherwise; it writes to the host's standard output and error exactly
/// when allowed, and into nothing otherwise; it gets the host's arguments
/// exactly when allowed, and none otherwise.  Each listed directory is
/// preopened as its own request under `/` joined with its path, with
/// exactly the directory permissions its `read` and `mutate` flags ask for
/// and no file permission; each listed file under its own path, with no
/// directory permission and exactly the file permissions its `read` and
/// `write` flags ask for.
pub proof fn granted_setup_follows_manifest(
    a: AccessView,
    host_args: Seq<Seq<char>>,
    lookups: Seq<Result<Seq<char>, Seq<char>>>,
    outcomes: Seq<Result<(), Seq<char>>>,
)
    requires
        lookups.len() == a.env.var.len(),
        outcomes.len() == a.fs.dir.len() + a.fs.file.len(),
        access_outcome(a, host_args, lookups, outcomes) is Ok,
    ensures
        ({
            let s = access_outcome(a, host_args, lookups, outcomes)->Ok_0;
            let dirs = a.fs.dir;
            let files = a.fs.file;
            &&& a.io.stdin ==> s.stdin == Some(InputSource::HostPipe)
            &&& !a.io.stdin ==> s.stdin == Some(InputSource::Empty)
            &&& a.io.stdout ==> s.stdout == Some(OutputTarget::HostPipe)
            &&& !a.io.stdout ==> s.stdout == Some(OutputTarget::Sink)
            &&& a.io.stderr ==> s.stderr == Some(OutputTarget::HostPipe)
            &&& !a.io.stderr ==> s.stderr == Some(OutputTarget::Sink)
            &&& a.env.args ==> s.args == host_args
            &&& !a.env.args ==> s.args.len() == 0
            &&& s.preopens.len() == dirs.len() + files.len()
            &&& forall|k: int| 0 <= k < dirs.len() ==> {
                let p = #[trigger] s.preopens[k];
                &&& p.request == k
                &&& grants_exactly(p.dir_perms, dirs[k].read, dirs[k].mutate)
                &&& p.file_perms == 0
                &&& p.guest_path == joined_path(seq!['/'], dirs[k].path)
            }
            &&& forall|j: int| 0 <= j < files.len() ==> {
                let p = #[trigger] s.preopens[dirs.len() + j];
                &&& p.request == dirs.len() + j
                &&& p.dir_perms == 0
                &&& grants_exactly(p.file_perms, files[j].read, files[j].write)
                &&& p.guest_path == files[j].path
            }
        }),
{
    granted_access_is_complete(a, host_args, lookups, outcomes);
    let s = access_outcome(a, host_args, lookups, outcomes)->Ok_0;
    assert forall|j: int| 0 <= j < a.fs.file.len() implies {
        let p = #[trigger] s.preopens[a.fs.dir.len() + j];
        &&& p.request == a.fs.dir.len() + j
        &&& p.dir_perms == 0
        &&& grants_exactly(p.file_perms, a.fs.file[j].read, a.fs.file[j].write)
        &&& p.guest_path == a.fs.file[j].path
    } by {
        assert(s.preopens[a.fs.dir.len() + j] == file_preopen(a.fs.file[j], (a.fs.dir.len() + j) as nat));
    }
}

impl AccessError {
    /// The text the error is shown as.
    pub fn message(&self) -> (r: String)
        ensures
            r@ == access_error_text(self@),
    {
        match self {
            AccessError::Io(e) => {
                let mut s = String::from_str("IO error: ");
                s.append(e.as_str());
                s
            },
            AccessError::Env(e) => {
                let mut s = String::from_str("Env error: ");
                s.append(e.as_str());
                s
            },
        }
    }
}

impl Access {
    /// Access to the given files and directories, environment and streams.
    pub fn new(fs: FsAccess, env: EnvAccess, io: IoAccess) -> (r: Self)
        ensures
            r@ == (AccessView { fs: fs@, env: env@, io: io@ }),
    {
        Access { fs, env, io }
    }

    /// The file and directory part.
    pub fn fs(&self) -> (r: &FsAccess)
        ensures
            r@ == self@.fs,
    {
        &self.fs
    }

    /// The environment part.
    pub fn env(&self) -> (r: &EnvAccess)
        ensures
            r@ == self@.env,
    {
        &self.env
    }

    /// The stream part.
    pub fn io(&self) -> (r: &IoAccess)
        ensures
            r@ == self@.io,
    {
        &self.io
    }

    /// The paths to open before `provide`: the directories, then the files.
    pub fn open_requests(&self) -> (r: Vec<OpenRequest>)
        ensures
            request_views(r@) == fs_requests(self@.fs),
    {
        self.fs.open_requests()
    }

    /// What the plugin gets, given the host's arguments, the host's lookup
    /// of each named variable and the outcome of opening each path of
    /// `open_requests`.
    pub fn provide(
        &self,
        host_args: &Vec<String>,
        lookups: &Vec<Result<String, String>>,
        outcomes: &Vec<Result<(), String>>,
    ) -> (r: Result<WasiSetup, AccessError>)
        requires
            lookups@.len() == self@.env.var.len(),
            outcomes@.len() == self@.fs.dir.len() + self@.fs.file.len(),
        ensures
            match (r, access_outcome(self@, crate::setup::texts(host_args@), lookup_texts(lookups@), outcome_texts(outcomes@))) {
                (Ok(s), Ok(t)) => s@ == t,
                (Err(e), Err(f)) => e@ == f,
                _ => false,
            },
    {
        let (stdin, stdout, stderr) = self.io.provide();
        let (args, env) = match self.env.provide(host_args, lookups) {
            Ok(granted) => granted,
            Err(e) => {
                return Err(AccessError::Env(e));
            },
        };
        let preopens = match self.fs.provide(outcomes) {
            Ok(p) => p,
            Err(e) => {
                return Err(AccessError::Io(e));
            },
        };
        Ok(WasiSetup { stdin: Some(stdin), stdout: Some(stdout), stderr: Some(stderr), args, env, preopens })
    }
}

} // verus!
