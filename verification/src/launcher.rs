//! The launcher command: which plugin to run, with which arguments.

use vstd::prelude::*;
use vstd::string::StringExecFns;
use crate::config::{binary_path, manifest_path, Config, ConfigView};
use crate::keyed::lookup;
use crate::paths::{file_stem, path_file_stem};
use crate::setup::{lemma_texts_push, texts};

verus! {

/// A launch of one plugin: its name, the arguments it is given and the
/// configuration it is found with.
pub struct Cli {
    name: String,
    args: Vec<String>,
    config: Config,
}

/// The model of a `Cli`.
pub struct CliView {
    pub name: Seq<char>,
    pub args: Seq<Seq<char>>,
    pub config: ConfigView,
}

impl View for Cli {
    type V = CliView;

    closed spec fn view(&self) -> CliView {
        CliView { name: self.name@, args: texts(self.args@), config: self.config@ }
    }
}

/// The program that runs an alias: the one the host names, else `spin`.
pub open spec fn spin_program(bin_path: Option<Seq<char>>) -> Seq<char> {
    match bin_path {
        Some(p) => p,
        None => "spin"@,
    }
}

/// The plugin a launch runs: the first command-line argument, or the
/// default plugin when there is none.
pub open spec fn launch_name(args: Seq<Seq<char>>, default: Seq<char>) -> Seq<char> {
    if args.len() > 0 {
        args[0]
    } else {
        default
    }
}

/// The arguments a launch passes on: all but the first command-line argument.
pub open spec fn launch_args(args: Seq<Seq<char>>) -> Seq<Seq<char>> {
    if args.len() > 0 {
        args.skip(1)
    } else {
        Seq::empty()
    }
}

/// Running an alias passes the command line on unchanged: the plugin's
/// name, then its arguments, exactly as they were given.
pub proof fn alias_forwards_command_line(args: Seq<Seq<char>>, default: Seq<char>)
    requires
        args.len() > 0,
    ensures
        seq![launch_name(args, default)] + launch_args(args) == args,
{
    assert(seq![launch_name(args, default)] + launch_args(args) =~= args);
}

impl Cli {
    /// The launch for the command-line arguments that follow the program
    /// name: the first names the plugin and the rest are passed to it; with
    /// none, the configuration's default plugin runs with no argument.
    pub fn new(args: Vec<String>, config: Config) -> (r: Self)
        ensures
            r@.name == launch_name(texts(args@), config@.name),
            r@.args == launch_args(texts(args@)),
            r@.config == config@,
    {
        if args.len() == 0 {
            let name = String::from_str(config.name());
            let rest: Vec<String> = Vec::new();
            assert(texts(rest@) =~= Seq::empty());
            return Cli { name, args: rest, config };
        }
        let name = args[0].clone();
        let mut rest: Vec<String> = Vec::new();
        let mut i: usize = 1;
        assert(texts(rest@) =~= texts(args@).subrange(1, 1));
        while i < args.len()
            invariant
                1 <= i <= args.len(),
                texts(rest@) == texts(args@).subrange(1, i as int),
            decreases args.len() - i,
        {
            proof {
                lemma_texts_push(rest@, args[i as int]);
                assert(texts(args@).subrange(1, i as int + 1) =~= texts(args@).subrange(1, i as int).push(args[i as int]@));
            }
            rest.push(args[i].clone());
            i = i + 1;
        }
        assert(texts(args@).subrange(1, i as int) =~= texts(args@).skip(1));
        Cli { name, args: rest, config }
    }

    /// The configuration.
    pub fn config(&self) -> (r: &Config)
        ensures
            r@ == self@.config,
    {
        &self.config
    }

    /// The plugin's name.
    pub fn name(&self) -> (r: &String)
        ensures
            r@ == self@.name,
    {
        &self.name
    }

    /// The arguments passed to the plugin.
    pub fn args(&self) -> (r: &Vec<String>)
        ensures
            texts(r@) == self@.args,
    {
        &self.args
    }

    /// Whether the plugin's name is an alias of the configuration.
    pub fn is_alias(&self) -> (r: bool)
        ensures
            r == lookup(self@.config.alias, self@.name) is Some,
    {
        self.config.alias(self.name.as_str()).is_some()
    }

    /// Where the plugin's binary is.
    pub fn binary(&self) -> (r: String)
        ensures
            r@ == binary_path(self@.config, self@.name),
    {
        self.config.binary(self.name.as_str())
    }

    /// Where the plugin's manifest is.
    pub fn manifest(&self) -> (r: String)
        ensures
            r@ == manifest_path(self@.config, self@.name),
    {
        self.config.manifest(self.name.as_str())
    }

    /// The command that runs an alias: the program the host names
    /// (`bin_path`), else `spin`, with the plugin's name and then its arguments.
    pub fn alias_command(&self, bin_path: Option<String>) -> (r: (String, Vec<String>))
        ensures
            r.0@ == spin_program(match bin_path {
                Some(p) => Some(p@),
                None => None,
            }),
            texts(r.1@) == seq![self@.name] + self@.args,
    {
        let program = match bin_path {
            Some(p) => p,
            None => String::from_str("spin"),
        };
        let mut argv: Vec<String> = Vec::new();
        argv.push(self.name.clone());
        let mut i: usize = 0;
        assert(texts(argv@) =~= seq![self@.name] + self@.args.take(0));
        while i < self.args.len()
            invariant
                i <= self.args.len(),
                texts(argv@) == seq![self@.name] + self@.args.take(i as int),
                self@.args == texts(self.args@),
            decreases self.args.len() - i,
        {
            proof {
                lemma_texts_push(argv@, self.args[i as int]);
                assert(seq![self@.name] + self@.args.take(i as int + 1) =~= (seq![self@.name] + self@.args.take(i as int)).push(self.args[i as int]@));
            }
            argv.push(self.args[i].clone());
            i = i + 1;
        }
        assert(self@.args.take(i as int) =~= self@.args);
        (program, argv)
    }

    /// The plugin a manifest file at `path` belongs to: its file stem.
    pub fn manifest_name(path: &str) -> (r: Option<String>)
        ensures
            match (r, path_file_stem(path@)) {
                (Some(s), Some(t)) => s@ == t,
                (None, None) => true,
                _ => false,
            },
    {
        file_stem(path)
    }
}

} // verus!
