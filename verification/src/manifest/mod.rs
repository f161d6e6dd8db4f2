//! The manifest of a plugin: what it may use of its host, and the commands
//! it hooks into.

pub mod access;
pub mod env;
pub mod fs;
pub mod hook;
pub mod io;

use vstd::prelude::*;
use vstd::string::StringExecFns;
use crate::keyed::{lookup, lemma_lookup_ends, lemma_lookup_take};
use crate::manifest::access::{
    access_error_text, access_outcome, Access, AccessError, AccessErrorView, AccessView,
};
use crate::manifest::env::{lookup_texts, ArgsAccess, EnvAccess};
use crate::manifest::fs::{outcome_texts, FsAccess};
use crate::manifest::hook::{Hook, HookView};
use crate::manifest::io::{IoAccess, StderrAccess, StdinAccess, StdoutAccess};
use crate::paths::{path_with_extension, with_extension};
use crate::setup::{texts, SetupView, WasiSetup};

verus! {

/// A plugin's manifest.
pub struct Manifest {
    access: Access,
    hooks: Vec<(String, Hook)>,
}

/// Why a manifest could not be loaded or applied.  Each carries the text
/// of the underlying error, or the access error itself.
pub enum ManifestError {
    Build(String),
    Access(AccessError),
    TomlSerialize(String),
    TomlDeserialize(String),
    Io(String),
}

/// The model of a `Manifest`: its access and its hooks by command name.
pub struct ManifestView {
    pub access: AccessView,
    pub hooks: Seq<(Seq<char>, HookView)>,
}

/// The model of a `ManifestError`.
pub enum ManifestErrorView {
    Build(Seq<char>),
    Access(AccessErrorView),
    TomlSerialize(Seq<char>),
    TomlDeserialize(Seq<char>),
    Io(Seq<char>),
}

/// The models of a sequence of named hooks.
pub open spec fn hook_views(v: Seq<(String, Hook)>) -> Seq<(Seq<char>, HookView)> {
    v.map_values(|e: (String, Hook)| (e.0@, e.1@))
}

impl View for Manifest {
    type V = ManifestView;

    closed spec fn view(&self) -> ManifestView {
        ManifestView { access: self.access@, hooks: hook_views(self.hooks@) }
    }
}

impl View for ManifestError {
    type V = ManifestErrorView;

    open spec fn view(&self) -> ManifestErrorView {
        match self {
            ManifestError::Build(e) => ManifestErrorView::Build(e@),
            ManifestError::Access(e) => ManifestErrorView::Access(e@),
            ManifestError::TomlSerialize(e) => ManifestErrorView::TomlSerialize(e@),
            ManifestError::TomlDeserialize(e) => ManifestErrorView::TomlDeserialize(e@),
            ManifestError::Io(e) => ManifestErrorView::Io(e@),
        }
    }
}

/// The text a manifest error is shown as.
pub open spec fn manifest_error_text(e: ManifestErrorView) -> Seq<char> {
    match e {
        ManifestErrorView::Build(m) => "Build error: "@ + m,
        ManifestErrorView::Access(a) => "Access error: "@ + access_error_text(a),
        ManifestErrorView::TomlSerialize(m) => "TOML error: "@ + m,
        ManifestErrorView::TomlDeserialize(m) => "TOML error: "@ + m,
        ManifestErrorView::Io(m) => "IO error: "@ + m,
    }
}

/// What applying a manifest gives: its access's outcome, an access error
/// becoming a manifest error.
pub open spec fn manifest_outcome(
    m: ManifestView,
    host_args: Seq<Seq<char>>,
    lookups: Seq<Result<Seq<char>, Seq<char>>>,
    outcomes: Seq<Result<(), Seq<char>>>,
) -> Result<SetupView, ManifestErrorView> {
    match access_outcome(m.access, host_args, lookups, outcomes) {
        Ok(s) => Ok(s),
        Err(e) => Err(ManifestErrorView::Access(e)),
    }
}

/// The path a manifest is kept at: `path` with the extension `toml`.
pub open spec fn manifest_file(path: Seq<char>) -> Seq<char> {
    path_with_extension(path, "toml"@)
}

impl From<AccessError> for ManifestError {
    fn from(err: AccessError) -> (r: Self) {
        ManifestError::Access(err)
    }
}

impl vstd::std_specs::convert::FromSpecImpl<AccessError> for ManifestError {
    open spec fn obeys_from_spec() -> bool {
        true
    }

    open spec fn from_spec(err: AccessError) -> ManifestError {
        ManifestError::Access(err)
    }
}

impl ManifestError {
    /// The text the error is shown as.
    pub fn message(&self) -> (r: String)
        ensures
            r@ == manifest_error_text(self@),
    {
        let (prefix, detail) = match self {
            ManifestError::Build(e) => (String::from_str("Build error: "), e.clone()),
            ManifestError::Access(e) => (String::from_str("Access error: "), e.message()),
            ManifestError::TomlSerialize(e) => (String::from_str("TOML error: "), e.clone()),
            ManifestError::TomlDeserialize(e) => (String::from_str("TOML error: "), e.clone()),
            ManifestError::Io(e) => (String::from_str("IO error: "), e.clone()),
        };
        let mut s = prefix;
        s.append(detail.as_str());
        s
    }
}

impl Manifest {
    /// A manifest with the given access and hooks.
    pub fn new(access: Access, hooks: Vec<(String, Hook)>) -> (r: Self)
        ensures
            r@ == (ManifestView { access: access@, hooks: hook_views(hooks@) }),
    {
        Manifest { access, hooks }
    }

    /// The manifest written when none exists: no access, no hook.
    pub fn default() -> (r: Self)
        ensures
            r@.access.fs.dir.len() == 0,
            r@.access.fs.file.len() == 0,
            r@.access.env.var.len() == 0,
            !r@.access.env.args,
            !r@.access.io.stdin && !r@.access.io.stdout && !r@.access.io.stderr,
            r@.hooks.len() == 0,
    {
        let fs = FsAccess::new(Vec::new(), Vec::new());
        let env = EnvAccess::new(Vec::new(), ArgsAccess::new(false));
        let io = IoAccess::new(StdinAccess::new(false), StdoutAccess::new(false), StderrAccess::new(false));
        let hooks: Vec<(String, Hook)> = Vec::new();
        let r = Manifest { access: Access::new(fs, env, io), hooks };
        assert(r@.access.fs.dir =~= Seq::empty());
        assert(r@.access.fs.file =~= Seq::empty());
        assert(r@.access.env.var =~= Seq::empty());
        assert(hook_views(r.hooks@) =~= Seq::empty());
        r
    }

    /// What the plugin may use of its host.
    pub fn access(&self) -> (r: &Access)
        ensures
            r@ == self@.access,
    {
        &self.access
    }

    /// The hooks, each with the command it hooks into.
    pub fn hooks(&self) -> (r: &Vec<(String, Hook)>)
        ensures
            hook_views(r@) == self@.hooks,
    {
        &self.hooks
    }

    /// The plugin's hook into the command `main`: the last hook named so.
    pub fn hook(&self, main: &str) -> (r: Option<&Hook>)
        ensures
            match (r, lookup(self@.hooks, main@)) {
                (Some(h), Some(v)) => h@ == v,
                (None, None) => true,
                _ => false,
            },
    {
        let key = main.to_owned();
        let mut i: usize = self.hooks.len();
        proof {
            lemma_lookup_ends(self@.hooks, main@);
        }
        while i > 0
            invariant
                i <= self.hooks.len(),
                key@ == main@,
                lookup(self@.hooks, main@) == lookup(self@.hooks.take(i as int), main@),
            decreases i,
        {
            proof {
                lemma_lookup_take(self@.hooks, main@, i as int);
            }
            if self.hooks[i - 1].0 == key {
                return Some(&self.hooks[i - 1].1);
            }
            i = i - 1;
        }
        None
    }

    /// What the plugin gets from this manifest, given the host's
    /// arguments, the host's lookup of each named variable and the outcome
    /// of opening each path of the access's `open_requests`.
    pub fn provide(
        &self,
        host_args: &Vec<String>,
        lookups: &Vec<Result<String, String>>,
        outcomes: &Vec<Result<(), String>>,
    ) -> (r: Result<WasiSetup, ManifestError>)
        requires
            lookups@.len() == self@.access.env.var.len(),
            outcomes@.len() == self@.access.fs.dir.len() + self@.access.fs.file.len(),
        ensures
            match (r, manifest_outcome(self@, texts(host_args@), lookup_texts(lookups@), outcome_texts(outcomes@))) {
                (Ok(s), Ok(t)) => s@ == t,
                (Err(e), Err(f)) => e@ == f,
                _ => false,
            },
    {
        match self.access.provide(host_args, lookups, outcomes) {
            Ok(s) => Ok(s),
            Err(e) => Err(ManifestError::from(e)),
        }
    }

    /// Where the manifest for `path` is kept: `path` with the extension `toml`.
    pub fn file_path(path: &str) -> (r: String)
        ensures
            r@ == manifest_file(path@),
    {
        proof {
            crate::paths::lemma_plain_extensions();
        }
        with_extension(path, "toml")
    }
}

} // verus!
