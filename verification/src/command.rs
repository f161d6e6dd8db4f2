//! The context of a command run with full access to one directory.

use vstd::prelude::*;
use vstd::string::StringExecFns;
use crate::paths::path_with_extension;
use crate::perms::{dir_perms_all, file_perms_all, perm_bits};
use crate::setup::{
    preopen_views, text_pairs, texts, InputSource, OpenBase, OpenKind, OpenRequest,
    OpenRequestView, OutputTarget, Preopen, PreopenView, SetupView, WasiSetup,
};

verus! {

/// How the command's directory is opened: as a directory, with the
/// process's own authority.
pub open spec fn spawn_request_of(dir: Seq<char>) -> OpenRequestView {
    OpenRequestView { path: dir, base: OpenBase::Ambient, kind: OpenKind::Dir }
}

/// What a command gets: the host's three streams, `WORKSPACE=/` and
/// `VERSION=version` in its environment, no argument, and the opened
/// directory at `/` with every permission.
pub open spec fn spawn_setup_of(version: Seq<char>) -> SetupView {
    SetupView {
        stdin: Some(InputSource::Inherit),
        stdout: Some(OutputTarget::Inherit),
        stderr: Some(OutputTarget::Inherit),
        args: Seq::empty(),
        env: seq![("WORKSPACE"@, "/"@), ("VERSION"@, version)],
        preopens: seq![
            PreopenView {
                request: 0,
                dir_perms: perm_bits(true, true),
                file_perms: perm_bits(true, true),
                guest_path: "/"@,
            },
        ],
    }
}

/// How to open the directory a command runs in.
pub fn spawn_request(dir: &str) -> (r: OpenRequest)
    ensures
        r@ == spawn_request_of(dir@),
{
    OpenRequest { path: dir.to_owned(), base: OpenBase::Ambient, kind: OpenKind::Dir }
}

/// What a command of the given version gets, its directory being the one
/// `spawn_request` opened.
pub fn spawn_setup(version: &str) -> (r: WasiSetup)
    ensures
        r@ == spawn_setup_of(version@),
{
    let mut env: Vec<(String, String)> = Vec::new();
    env.push((String::from_str("WORKSPACE"), String::from_str("/")));
    env.push((String::from_str("VERSION"), version.to_owned()));
    let mut preopens: Vec<Preopen> = Vec::new();
    preopens.push(
        Preopen {
            request: 0,
            dir_perms: dir_perms_all(),
            file_perms: file_perms_all(),
            guest_path: String::from_str("/"),
        },
    );
    let r = WasiSetup {
        stdin: Some(InputSource::Inherit),
        stdout: Some(OutputTarget::Inherit),
        stderr: Some(OutputTarget::Inherit),
        args: Vec::new(),
        env,
        preopens,
    };
    assert(texts(r.args@) =~= Seq::empty());
    assert(text_pairs(r.env@) =~= seq![("WORKSPACE"@, "/"@), ("VERSION"@, version@)]);
    assert(preopen_views(r.preopens@) =~= spawn_setup_of(version@).preopens);
    r
}

/// The file a component is loaded from: `path` with the extension `wasm`.
pub open spec fn component_file(path: Seq<char>) -> Seq<char> {
    path_with_extension(path, "wasm"@)
}

/// Where the component for `path` is.
pub fn component_path(path: &str) -> (r: String)
    ensures
        r@ == component_file(path@),
{
    proof {
        crate::paths::lemma_plain_extensions();
    }
    crate::paths::with_extension(path, "wasm")
}

/// Whether a command's run succeeded: its `run` export returned `Ok`.
pub fn exit_success(outcome: Result<(), ()>) -> (r: bool)
    ensures
        r == outcome is Ok,
{
    match outcome {
        Ok(()) => true,
        Err(()) => false,
    }
}

/// How the engine that runs components is set up.  A setting that is on
/// is turned on explicitly; one that is off is left as the engine has it.
pub struct EngineSettings {
    pub debug_info: bool,
    pub wasm_backtrace: bool,
    pub backtrace_details: bool,
    pub component_model: bool,
    pub async_support: bool,
}

impl EngineSettings {
    /// The engine for running commands: debug information and detailed
    /// backtraces in a debug build; components and async calls always.
    pub fn for_commands(debug_build: bool) -> (r: Self)
        ensures
            r.debug_info == debug_build,
            r.wasm_backtrace == debug_build,
            r.backtrace_details == debug_build,
            r.component_model,
            r.async_support,
    {
        EngineSettings {
            debug_info: debug_build,
            wasm_backtrace: debug_build,
            backtrace_details: debug_build,
            component_model: true,
            async_support: true,
        }
    }

    /// The engine for loading components: debug information in a debug
    /// build; components and async calls always; backtraces left as the
    /// engine has them.
    pub fn for_loader(debug_build: bool) -> (r: Self)
        ensures
            r.debug_info == debug_build,
            !r.wasm_backtrace,
            !r.backtrace_details,
            r.component_model,
            r.async_support,
    {
        EngineSettings {
            debug_info: debug_build,
            wasm_backtrace: false,
            backtrace_details: false,
            component_model: true,
            async_support: true,
        }
    }
}

} // verus!
