use spinlet::command::{exit_success, spawn_request, spawn_setup, EngineSettings};
use spinlet::context::error::ContextError;
use spinlet::context::{context_requests, context_setup, Capabilities as DiskCapabilities};
use spinlet::manifest::access::{Access, AccessError};
use spinlet::manifest::env::{ArgsAccess, EnvAccess, VarAccess};
use spinlet::manifest::fs::{DirAccess, FileAccess, FsAccess};
use spinlet::manifest::hook::{Hook, HookPoint};
use spinlet::manifest::io::{IoAccess, StderrAccess, StdinAccess, StdoutAccess};
use spinlet::manifest::{Manifest, ManifestError};
use spinlet::perms::{dir_perms, dir_perms_union, file_perms, file_perms_union, dir_perms_all, file_perms_all};
use spinlet::runtime::{
    Access as WorkspaceAccess, Capabilities, DirAccess as WorkspaceDir, FileAccess as WorkspaceFile,
};
use spinlet::setup::{InputSource, OpenBase, OpenKind, OutputTarget};

fn s(x: &str) -> String {
    x.to_string()
}

#[test]
fn permission_bits_follow_the_flags() {
    for (read, change, bits) in [(false, false, 0), (true, false, 1), (false, true, 2), (true, true, 3)] {
        assert_eq!(dir_perms(read, change), bits);
        assert_eq!(dir_perms_union(read, change), bits);
        assert_eq!(file_perms(read, change), bits);
        assert_eq!(file_perms_union(read, change), bits);
    }
    assert_eq!(dir_perms_all(), 3);
    assert_eq!(file_perms_all(), 3);
}

fn workspace_caps(stdin: bool, stdout: bool, stderr: bool) -> Capabilities {
    let access = WorkspaceAccess::new(
        vec![WorkspaceFile::new(s("notes.txt"), true, false), WorkspaceFile::new(s("out.log"), false, true)],
        vec![WorkspaceDir::new(s("src"), true, false), WorkspaceDir::new(s("target"), true, true)],
    );
    Capabilities::new(stdin, stdout, stderr, vec![s("--ignored")], vec![s("HOME"), s("MISSING"), s("PATH")], access)
}

#[test]
fn workspace_capabilities_choose_streams() {
    let c = workspace_caps(true, false, true);
    assert_eq!(c.push_stdin(), InputSource::Inherit);
    assert_eq!(c.push_stdout(), OutputTarget::Sink);
    assert_eq!(c.push_stderr(), OutputTarget::Inherit);
    let d = workspace_caps(false, true, false);
    assert_eq!(d.push_stdin(), InputSource::Empty);
    assert_eq!(d.push_stdout(), OutputTarget::Inherit);
    assert_eq!(d.push_stderr(), OutputTarget::Sink);
}

#[test]
fn workspace_env_only_passes_set_named_variables() {
    let c = workspace_caps(false, false, false);
    let host = vec![Some(s("/home/me")), None, Some(s("/bin"))];
    assert_eq!(c.push_env(&host), vec![(s("HOME"), s("/home/me")), (s("PATH"), s("/bin"))]);
    assert!(c.push_env(&vec![None, None, None]).is_empty());
}

#[test]
fn workspace_requests_list_dirs_then_files() {
    let c = workspace_caps(false, false, false);
    let r = c.open_requests();
    let kinds: Vec<(&str, OpenKind)> = r.iter().map(|q| (q.path.as_str(), q.kind)).collect();
    assert_eq!(
        kinds,
        vec![
            ("src", OpenKind::Dir),
            ("target", OpenKind::Dir),
            ("notes.txt", OpenKind::File { read: true, write: false }),
            ("out.log", OpenKind::File { read: false, write: true }),
        ]
    );
    assert!(r.iter().all(|q| q.base == OpenBase::Workspace));
}

#[test]
fn workspace_access_grants_opened_entries_with_their_permissions() {
    let c = workspace_caps(false, false, false);
    let p = c.push_access(true, &vec![true, false, true, true]);
    let got: Vec<(usize, usize, usize, &str)> =
        p.iter().map(|x| (x.request, x.dir_perms, x.file_perms, x.guest_path.as_str())).collect();
    assert_eq!(got, vec![(0, 1, 1, "src"), (2, 1, 1, "notes.txt"), (3, 2, 2, "out.log")]);
    assert!(c.push_access(false, &vec![true, true, true, true]).is_empty());
    assert!(c.push_access(true, &vec![false, false, false, false]).is_empty());
}

#[test]
fn workspace_setup_combines_everything() {
    let c = workspace_caps(true, true, false);
    let setup = c.push_all(&vec![Some(s("h")), Some(s("m")), None], true, &vec![false, true, false, false]);
    assert_eq!(setup.stdin, Some(InputSource::Inherit));
    assert_eq!(setup.stdout, Some(OutputTarget::Inherit));
    assert_eq!(setup.stderr, Some(OutputTarget::Sink));
    assert!(setup.args.is_empty());
    assert_eq!(setup.env, vec![(s("HOME"), s("h")), (s("MISSING"), s("m"))]);
    assert_eq!(setup.preopens.len(), 1);
    assert_eq!(setup.preopens[0].request, 1);
    assert_eq!(setup.preopens[0].dir_perms, 3);
    assert_eq!(setup.preopens[0].file_perms, 3);
    assert_eq!(setup.preopens[0].guest_path, "target");
}

#[test]
fn nothing_granted_by_empty_capabilities() {
    let c = Capabilities::empty();
    let setup = c.push_all(&vec![], true, &vec![]);
    assert_eq!(setup.stdin, Some(InputSource::Empty));
    assert_eq!(setup.stdout, Some(OutputTarget::Sink));
    assert_eq!(setup.stderr, Some(OutputTarget::Sink));
    assert!(setup.env.is_empty() && setup.preopens.is_empty() && setup.args.is_empty());
}

#[test]
fn disk_capabilities_push_their_workspace_access() {
    let access = WorkspaceAccess::new(vec![], vec![WorkspaceDir::new(s("data"), false, true)]);
    let caps = DiskCapabilities::new(vec![], access);
    let p = caps.push(true, &vec![true]);
    assert_eq!(p.len(), 1);
    assert_eq!((p[0].dir_perms, p[0].file_perms), (2, 2));
    assert!(caps.push(false, &vec![true]).is_empty());
}

fn sample_access(stdin: bool, args: bool) -> Access {
    Access::new(
        FsAccess::new(
            vec![FileAccess::new(s("Cargo.toml"), true, false), FileAccess::new(s("registry/spin.toml"), true, true)],
            vec![DirAccess::new(s("."), true, false), DirAccess::new(s("registry"), true, true)],
        ),
        EnvAccess::new(vec![VarAccess::new(s("HOME")), VarAccess::new(s("USER"))], ArgsAccess::new(args)),
        IoAccess::new(StdinAccess::new(stdin), StdoutAccess::new(true), StderrAccess::new(false)),
    )
}

#[test]
fn manifest_requests_open_inside_the_workspace() {
    let a = sample_access(true, true);
    let r = a.open_requests();
    let kinds: Vec<(&str, OpenKind)> = r.iter().map(|q| (q.path.as_str(), q.kind)).collect();
    assert_eq!(
        kinds,
        vec![
            (".", OpenKind::Dir),
            ("registry", OpenKind::Dir),
            ("Cargo.toml", OpenKind::File { read: true, write: false }),
            ("registry/spin.toml", OpenKind::File { read: true, write: true }),
        ]
    );
    assert!(r.iter().all(|q| q.base == OpenBase::Workspace));
    let absolute = Access::new(
        FsAccess::new(vec![], vec![DirAccess::new(s("/etc"), true, false)]),
        EnvAccess::new(vec![], ArgsAccess::new(false)),
        IoAccess::new(StdinAccess::new(false), StdoutAccess::new(false), StderrAccess::new(false)),
    );
    let r = absolute.open_requests();
    assert_eq!(r[0].base, OpenBase::Workspace);
    assert_eq!(r[0].path, "/etc");
}

#[test]
fn manifest_access_grants_everything_when_all_succeeds() {
    let a = sample_access(true, true);
    let setup = a
        .provide(
            &vec![s("let"), s("update")],
            &vec![Ok(s("/home/me")), Ok(s("me"))],
            &vec![Ok(()), Ok(()), Ok(()), Ok(())],
        )
        .ok()
        .unwrap();
    assert_eq!(setup.stdin, Some(InputSource::HostPipe));
    assert_eq!(setup.stdout, Some(OutputTarget::HostPipe));
    assert_eq!(setup.stderr, Some(OutputTarget::Sink));
    assert_eq!(setup.args, vec![s("let"), s("update")]);
    assert_eq!(setup.env, vec![(s("HOME"), s("/home/me")), (s("USER"), s("me"))]);
    let got: Vec<(usize, usize, usize, &str)> =
        setup.preopens.iter().map(|x| (x.request, x.dir_perms, x.file_perms, x.guest_path.as_str())).collect();
    assert_eq!(
        got,
        vec![(0, 1, 0, "/."), (1, 3, 0, "/registry"), (2, 0, 1, "Cargo.toml"), (3, 0, 3, "registry/spin.toml")]
    );
}

#[test]
fn manifest_access_without_args_or_stdin() {
    let a = sample_access(false, false);
    let setup = a.provide(&vec![s("let")], &vec![Ok(s("h")), Ok(s("u"))], &vec![Ok(()), Ok(()), Ok(()), Ok(())]).ok().unwrap();
    assert_eq!(setup.stdin, Some(InputSource::Empty));
    assert!(setup.args.is_empty());
}

#[test]
fn manifest_access_refuses_a_missing_variable_first() {
    let a = sample_access(true, true);
    match a.provide(&vec![], &vec![Ok(s("h")), Err(s("environment variable not found"))], &vec![Err(s("nope")), Ok(()), Ok(()), Ok(())]) {
        Err(AccessError::Env(e)) => assert_eq!(e, "environment variable not found"),
        _ => panic!("expected an environment error"),
    }
}

#[test]
fn manifest_access_refuses_the_first_path_that_did_not_open() {
    let a = sample_access(true, true);
    match a.provide(&vec![], &vec![Ok(s("h")), Ok(s("u"))], &vec![Ok(()), Ok(()), Err(s("first")), Err(s("second"))]) {
        Err(AccessError::Io(e)) => assert_eq!(e, "first"),
        _ => panic!("expected an io error"),
    }
}

#[test]
fn manifest_provide_wraps_access_errors() {
    let m = Manifest::new(sample_access(true, true), vec![]);
    match m.provide(&vec![], &vec![Err(s("x")), Ok(s("u"))], &vec![Ok(()), Ok(()), Ok(()), Ok(())]) {
        Err(ManifestError::Access(AccessError::Env(e))) => assert_eq!(e, "x"),
        _ => panic!("expected an access error"),
    }
    assert!(m.provide(&vec![], &vec![Ok(s("h")), Ok(s("u"))], &vec![Ok(()), Ok(()), Ok(()), Ok(())]).is_ok());
}

#[test]
fn default_manifest_grants_nothing() {
    let m = Manifest::default();
    let setup = m.provide(&vec![s("a")], &vec![], &vec![]).ok().unwrap();
    assert_eq!(setup.stdin, Some(InputSource::Empty));
    assert_eq!(setup.stdout, Some(OutputTarget::Sink));
    assert_eq!(setup.stderr, Some(OutputTarget::Sink));
    assert!(setup.args.is_empty() && setup.env.is_empty() && setup.preopens.is_empty());
    assert!(m.hook("build").is_none());
}

#[test]
fn manifest_hook_is_found_by_command() {
    let hooks = vec![
        (s("build"), Hook::new(HookPoint::new(true), HookPoint::new(false))),
        (s("deploy"), Hook::new(HookPoint::new(false), HookPoint::new(true))),
        (s("build"), Hook::new(HookPoint::new(false), HookPoint::new(true))),
    ];
    let m = Manifest::new(sample_access(false, false), hooks);
    let h = m.hook("build").unwrap();
    assert!(!h.before().enabled() && h.after().enabled());
    let d = m.hook("deploy").unwrap();
    assert!(!d.before().enabled() && d.after().enabled());
    assert!(m.hook("test").is_none());
}

#[test]
fn context_grants_only_enabled_streams_and_opened_paths() {
    let m = Manifest::new(sample_access(false, true), vec![]);
    let r = context_requests(&m);
    let kinds: Vec<(&str, OpenKind)> = r.iter().map(|q| (q.path.as_str(), q.kind)).collect();
    assert_eq!(
        kinds,
        vec![
            (".", OpenKind::Dir),
            ("registry", OpenKind::Dir),
            ("Cargo.toml", OpenKind::File { read: true, write: false }),
            ("registry/spin.toml", OpenKind::File { read: true, write: true }),
        ]
    );
    assert!(r.iter().all(|q| q.base == OpenBase::Workspace));
    let setup = context_setup(&m, &vec![s("let"), s("x")], &vec![None, Some(s("me"))], &vec![true, false, false, true]);
    assert_eq!(setup.stdin, None);
    assert_eq!(setup.stdout, Some(OutputTarget::Inherit));
    assert_eq!(setup.stderr, None);
    assert_eq!(setup.args, vec![s("let"), s("x")]);
    assert_eq!(setup.env, vec![(s("USER"), s("me"))]);
    let got: Vec<(usize, usize, usize, &str)> =
        setup.preopens.iter().map(|x| (x.request, x.dir_perms, x.file_perms, x.guest_path.as_str())).collect();
    assert_eq!(got, vec![(0, 1, 0, "."), (3, 0, 3, "registry/spin.toml")]);
}

#[test]
fn command_context_gets_everything_of_its_directory() {
    let r = spawn_request("/work");
    assert_eq!(r.path, "/work");
    assert_eq!((r.base, r.kind), (OpenBase::Ambient, OpenKind::Dir));
    let setup = spawn_setup("1.2.3");
    assert_eq!(setup.stdin, Some(InputSource::Inherit));
    assert_eq!(setup.stdout, Some(OutputTarget::Inherit));
    assert_eq!(setup.stderr, Some(OutputTarget::Inherit));
    assert_eq!(setup.env, vec![(s("WORKSPACE"), s("/")), (s("VERSION"), s("1.2.3"))]);
    assert_eq!(setup.preopens.len(), 1);
    assert_eq!((setup.preopens[0].request, setup.preopens[0].dir_perms, setup.preopens[0].file_perms), (0, 3, 3));
    assert_eq!(setup.preopens[0].guest_path, "/");
}

#[test]
fn run_outcome_and_engine_settings() {
    assert!(exit_success(Ok(())));
    assert!(!exit_success(Err(())));
    let e = EngineSettings::for_commands(true);
    assert!(e.debug_info && e.wasm_backtrace && e.backtrace_details && e.component_model && e.async_support);
    let l = EngineSettings::for_loader(false);
    assert!(!l.debug_info && !l.wasm_backtrace && l.component_model && l.async_support);
}

#[test]
fn error_messages() {
    assert_eq!(AccessError::Io(s("denied")).message(), "IO error: denied");
    assert_eq!(AccessError::Env(s("missing")).message(), "Env error: missing");
    assert_eq!(ManifestError::Build(s("b")).message(), "Build error: b");
    assert_eq!(ManifestError::Access(AccessError::Io(s("d"))).message(), "Access error: IO error: d");
    assert_eq!(ManifestError::TomlSerialize(s("t")).message(), "TOML error: t");
    assert_eq!(ManifestError::TomlDeserialize(s("u")).message(), "TOML error: u");
    assert_eq!(ManifestError::Io(s("i")).message(), "IO error: i");
    assert_eq!(ContextError::Build(s("b")).message(), "Build error: b");
    assert_eq!(ContextError::Io(s("i")).message(), "IO error: i");
    assert_eq!(ContextError::Toml(s("t")).message(), "TOML error: t");
}
