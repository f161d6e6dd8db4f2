use spinlet::cli::args::Args as CliArgs;
use spinlet::cli::config::Config as CliConfig;
use spinlet::cli::entry::{Args as EntryArgs, BIN_NAME, DEFAULT_SPINLET};
use spinlet::cli::Cli as ToolCli;
use spinlet::command::component_path;
use spinlet::config::Config;
use spinlet::listing::DirEntry;
use spinlet::manifest::Manifest;

fn s(x: &str) -> String {
    x.to_string()
}

fn sample_config() -> Config {
    Config::new(
        s("shell"),
        s("0.1.0"),
        s("https://example.invalid/repo"),
        s("/opt/plugins"),
        s("manifests"),
        s("conf"),
        s("binaries"),
        s("bin"),
        s("libs"),
        s("so"),
        vec![(s("deploy"), s("cloud deploy")), (s("up"), s("cloud up")), (s("deploy"), s("other"))],
    )
    .unwrap()
}

#[test]
fn default_config_places_manifest_and_binary() {
    let c = Config::default();
    assert_eq!(c.root(), ".spinlet");
    assert_eq!(c.name(), "shell");
    assert_eq!(c.manifest("shell"), ".spinlet/etc/shell.toml");
    assert_eq!(c.binary("shell"), ".spinlet/bin/shell.wasm");
    assert_eq!(c.etc(), ".spinlet/etc");
}

#[test]
fn configured_layout_places_manifest_and_binary() {
    let c = sample_config();
    assert_eq!(c.manifest("hello"), "/opt/plugins/manifests/hello.conf");
    assert_eq!(c.binary("hello"), "/opt/plugins/binaries/hello.bin");
    assert_eq!(c.root(), "/opt/plugins");
}

#[test]
fn spinlet_name_with_extension_is_replaced() {
    let c = Config::default();
    assert_eq!(c.binary("tool.v2"), ".spinlet/bin/tool.wasm");
    assert_eq!(c.manifest("tool.v2"), ".spinlet/etc/tool.toml");
}

#[test]
fn absolute_spinlet_name_replaces_the_directory() {
    let c = Config::default();
    assert_eq!(c.binary("/tmp/x"), "/tmp/x.wasm");
}

#[test]
fn alias_lookup_takes_the_last_entry() {
    let c = sample_config();
    assert_eq!(c.alias("deploy").map(|a| a.as_str()), Some("other"));
    assert_eq!(c.alias("up").map(|a| a.as_str()), Some("cloud up"));
    assert!(c.alias("down").is_none());
}

#[test]
fn extension_with_separator_is_refused() {
    let ok = Config::new(s("n"), s("v"), s("r"), s("root"), s("etc"), s("toml"), s("bin"), s("wasm"), s("lib"), s("w/x"), vec![]);
    assert!(ok.is_some());
    let bad = Config::new(s("n"), s("v"), s("r"), s("root"), s("etc"), s("a/b"), s("bin"), s("wasm"), s("lib"), s("so"), vec![]);
    assert!(bad.is_none());
    let bad = Config::new(s("n"), s("v"), s("r"), s("root"), s("etc"), s("toml"), s("bin"), s("/wasm"), s("lib"), s("so"), vec![]);
    assert!(bad.is_none());
    assert!(CliConfig::new(s("r"), s("e"), s("t/x"), s("b"), s("w"), s("l"), s("w")).is_none());
    assert!(CliConfig::new(s("r"), s("e"), s("t"), s("b"), s("w/"), s("l"), s("w")).is_none());
    let c = CliConfig::new(s("r"), s("e"), s("t"), s("b"), s("w"), s("l"), s("w/x")).unwrap();
    assert_eq!(c.binary("p"), "r/b/p.w");
}

#[test]
fn joining_adds_one_separator() {
    let c = Config::new(s("n/"), s("v"), s("r"), s("root/"), s("etc"), s("toml"), s("/abs"), s("wasm"), s("lib"), s("so"), vec![]).unwrap();
    assert_eq!(c.manifest("p"), "root/etc/p.toml");
    assert_eq!(c.binary("p"), "/abs/p.wasm");
    assert_eq!(c.spinlets_dir(), "/abs");
    let e = Config::new(s(""), s("v"), s("r"), s(""), s("etc"), s("toml"), s("bin"), s("wasm"), s("lib"), s("so"), vec![]).unwrap();
    assert_eq!(e.etc(), "etc");
    assert_eq!(e.spinlets_dir(), "bin");
}

#[test]
fn spinlets_are_listed_from_the_name_directory() {
    let c = sample_config();
    assert_eq!(c.spinlets_dir(), "shell/binaries");
}

fn entry(path: &str, exists: bool, is_file: bool) -> Option<DirEntry> {
    Some(DirEntry { path: s(path), exists, is_file })
}

#[test]
fn listing_keeps_files_whose_extension_is_not_the_binary_one() {
    let c = Config::default();
    let entries = vec![
        entry(".spinlet/bin/alpha.wasm", true, true),
        entry(".spinlet/bin/beta.txt", true, true),
        None,
        entry(".spinlet/bin/gamma", true, true),
        entry(".spinlet/bin/delta.md", false, true),
        entry(".spinlet/bin/sub.d", true, false),
        entry(".spinlet/bin/eps.tar.gz", true, true),
    ];
    assert_eq!(c.list_spinlets(&entries), vec![s("beta"), s("eps.tar")]);
}

#[test]
fn listing_of_nothing_is_empty() {
    let c = CliConfig::default();
    assert!(c.list_spinlets(&vec![]).is_empty());
    assert!(c.list_spinlets(&vec![None, None]).is_empty());
}

#[test]
fn tool_config_places_files_under_root() {
    let c = CliConfig::default();
    assert_eq!(c.manifest("shell"), ".spinlet/etc/shell.toml");
    assert_eq!(c.binary("shell"), ".spinlet/bin/shell.wasm");
    assert_eq!(c.spinlets_dir(), ".spinlet/bin");
    let entries = vec![entry("x/a.wasm", true, true), entry("x/b.json", true, true)];
    assert_eq!(c.list_spinlets(&entries), vec![s("b")]);
}

#[test]
fn tool_args_name_the_configuration() {
    let a = CliArgs::new(s("hello"), s("/srv/root"), vec![s("--flag"), s("x")]);
    assert_eq!(a.spinlet(), "hello");
    assert_eq!(a.root(), "/srv/root");
    assert_eq!(a.spinlet_args(), &[s("--flag"), s("x")][..]);
    assert_eq!(a.config(), "/srv/root/config.toml");
    let d = CliArgs::default();
    assert_eq!(d.spinlet(), "shell");
    assert_eq!(d.config(), ".spinlet/config.toml");
    assert!(d.spinlet_args().is_empty());
}

#[test]
fn entry_args_default_to_the_shell() {
    assert_eq!(BIN_NAME, "spin let");
    assert_eq!(DEFAULT_SPINLET, "shell");
    assert_eq!(EntryArgs::default().spinlet, "shell");
    assert_eq!(EntryArgs::new(s("x")).spinlet, "x");
}

#[test]
fn tool_reports_missing_binary_with_listing() {
    let cli = ToolCli::new(CliConfig::default(), CliArgs::new(s("ghost"), s(".spinlet"), vec![]));
    assert_eq!(cli.manifest(), ".spinlet/etc/ghost.toml");
    assert_eq!(cli.binary(), ".spinlet/bin/ghost.wasm");
    assert!(cli.run(true, &None).is_empty());
    assert_eq!(cli.run(false, &None), vec![s("Spinlet not found: ghost")]);
    assert_eq!(
        cli.run(false, &Some(vec![s("a"), s("b")])),
        vec![s("Spinlet not found: ghost"), s("Available spinlets:"), s(" - a"), s(" - b")]
    );
    assert_eq!(
        cli.run(false, &Some(vec![])),
        vec![s("Spinlet not found: ghost"), s("Available spinlets:")]
    );
}

#[test]
fn manifest_and_component_files_take_their_extension() {
    assert_eq!(Manifest::file_path("plugins/hello"), "plugins/hello.toml");
    assert_eq!(Manifest::file_path("plugins/hello.wasm"), "plugins/hello.toml");
    assert_eq!(component_path("plugins/hello"), "plugins/hello.wasm");
    assert_eq!(component_path("plugins/hello.toml"), "plugins/hello.wasm");
}
