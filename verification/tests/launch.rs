use spinlet::config::Config;
use spinlet::launcher::Cli;
use spinlet::manifest::access::Access;
use spinlet::manifest::env::{ArgsAccess, EnvAccess};
use spinlet::manifest::fs::FsAccess;
use spinlet::manifest::hook::{Hook, HookPoint};
use spinlet::manifest::io::{IoAccess, StderrAccess, StdinAccess, StdoutAccess};
use spinlet::manifest::Manifest;
use spinlet::tasks::TaskLoader;

fn s(x: &str) -> String {
    x.to_string()
}

fn aliased_config() -> Config {
    let d = Config::default();
    Config::new(
        s(d.name()),
        s("1.0.0"),
        s(""),
        s(d.root()),
        s("etc"),
        s("toml"),
        s("bin"),
        s("wasm"),
        s("lib"),
        s("wasm"),
        vec![(s("build"), s("spin build")), (s("up"), s("spin up"))],
    )
    .unwrap()
}

#[test]
fn launch_takes_the_first_argument_as_plugin() {
    let cli = Cli::new(vec![s("hello"), s("--a"), s("b")], aliased_config());
    assert_eq!(cli.name(), "hello");
    assert_eq!(cli.args(), &vec![s("--a"), s("b")]);
    assert_eq!(cli.binary(), ".spinlet/bin/hello.wasm");
    assert_eq!(cli.manifest(), ".spinlet/etc/hello.toml");
    assert!(!cli.is_alias());
    assert_eq!(cli.config().root(), ".spinlet");
}

#[test]
fn launch_without_arguments_runs_the_default_plugin() {
    let cli = Cli::new(vec![], aliased_config());
    assert_eq!(cli.name(), "shell");
    assert!(cli.args().is_empty());
    assert_eq!(cli.binary(), ".spinlet/bin/shell.wasm");
}

#[test]
fn alias_is_recognised_and_forwarded() {
    let cli = Cli::new(vec![s("build"), s("--release")], aliased_config());
    assert!(cli.is_alias());
    let (program, argv) = cli.alias_command(None);
    assert_eq!(program, "spin");
    assert_eq!(argv, vec![s("build"), s("--release")]);
    let (program, _) = cli.alias_command(Some(s("/usr/local/bin/spin")));
    assert_eq!(program, "/usr/local/bin/spin");
}

#[test]
fn manifest_names_come_from_file_stems() {
    assert_eq!(Cli::manifest_name(".spinlet/etc/hello.toml"), Some(s("hello")));
    assert_eq!(Cli::manifest_name(".spinlet/etc/a.b.toml"), Some(s("a.b")));
    assert_eq!(Cli::manifest_name("/"), None);
}

fn manifest_with(hooks: Vec<(String, Hook)>) -> Manifest {
    Manifest::new(
        Access::new(
            FsAccess::new(vec![], vec![]),
            EnvAccess::new(vec![], ArgsAccess::new(false)),
            IoAccess::new(StdinAccess::new(false), StdoutAccess::new(false), StderrAccess::new(false)),
        ),
        hooks,
    )
}

fn hook(before: bool, after: bool) -> Hook {
    Hook::new(HookPoint::new(before), HookPoint::new(after))
}

#[test]
fn task_loader_picks_hooks_for_the_command() {
    let manifests = vec![
        (s("lint"), manifest_with(vec![(s("build"), hook(true, false))])),
        (s("notify"), manifest_with(vec![(s("build"), hook(false, true)), (s("up"), hook(true, true))])),
        (s("audit"), manifest_with(vec![(s("build"), hook(true, true))])),
        (s("idle"), manifest_with(vec![(s("up"), hook(true, true))])),
    ];
    let loader = TaskLoader::new("build", manifests);
    assert_eq!(loader.before_names(), &vec![s("lint"), s("audit")]);
    assert_eq!(loader.after_names(), &vec![s("notify"), s("audit")]);
    let config = Config::default();
    let before: Vec<(String, String)> = loader.before_hooks(&config).into_iter().map(|t| (t.name, t.binary)).collect();
    assert_eq!(before, vec![(s("lint"), s(".spinlet/bin/lint.wasm")), (s("audit"), s(".spinlet/bin/audit.wasm"))]);
    let after: Vec<String> = loader.after_hooks(&config).into_iter().map(|t| t.name).collect();
    assert_eq!(after, vec![s("notify"), s("audit")]);
    assert!(loader.manifest("idle").is_some());
    assert!(loader.manifest("missing").is_none());
}

#[test]
fn repeated_manifest_names_are_listed_once_with_the_last_manifest() {
    let manifests = vec![
        (s("fmt"), manifest_with(vec![(s("build"), hook(true, true))])),
        (s("other"), manifest_with(vec![(s("build"), hook(true, false))])),
        (s("fmt"), manifest_with(vec![(s("build"), hook(true, false))])),
    ];
    let loader = TaskLoader::new("build", manifests);
    assert_eq!(loader.before_names(), &vec![s("other"), s("fmt")]);
    assert!(loader.after_names().is_empty());
    let fmt = loader.manifest("fmt").unwrap();
    assert!(!fmt.hook("build").unwrap().after().enabled());
}

#[test]
fn tasks_skip_names_without_manifest() {
    let loader = TaskLoader::new("up", vec![(s("a"), manifest_with(vec![(s("up"), hook(true, false))]))]);
    let tasks = loader.tasks_for(&vec![s("ghost"), s("a"), s("a")], &Config::default());
    let names: Vec<String> = tasks.into_iter().map(|t| t.name).collect();
    assert_eq!(names, vec![s("a"), s("a")]);
}

#[test]
fn task_loader_without_hooks_runs_nothing() {
    let loader = TaskLoader::new("deploy", vec![(s("x"), manifest_with(vec![]))]);
    assert!(loader.before_names().is_empty());
    assert!(loader.after_hooks(&Config::default()).is_empty());
}
