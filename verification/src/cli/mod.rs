//! The command-line tool: which plugin to run and what to report when it
//! is missing.

pub mod args;
pub mod config;
pub mod entry;

use vstd::prelude::*;
use vstd::string::StringExecFns;
use crate::cli::args::{Args, ArgsView};
use crate::cli::config::{binary_path, manifest_path, Config, ConfigView};
use crate::setup::texts;

verus! {

/// The tool's configuration and command line.
pub struct Cli {
    config: Config,
    args: Args,
}

/// The model of a `Cli`.
pub struct CliView {
    pub config: ConfigView,
    pub args: ArgsView,
}

impl View for Cli {
    type V = CliView;

    closed spec fn view(&self) -> CliView {
        CliView { config: self.config@, args: self.args@ }
    }
}

/// The lines listing the available plugins.
pub open spec fn listing_lines(names: Seq<Seq<char>>) -> Seq<Seq<char>> {
    seq!["Available spinlets:"@] + names.map_values(|n: Seq<char>| " - "@ + n)
}

/// What the tool reports: nothing when the plugin's binary exists; else
/// that the plugin was not found and, when the plugins could be listed,
/// the list of them.
pub open spec fn report_lines(spinlet: Seq<char>, binary_exists: bool, listing: Option<Seq<Seq<char>>>) -> Seq<
    Seq<char>,
> {
    if binary_exists {
        Seq::empty()
    } else {
        seq!["Spinlet not found: "@ + spinlet] + match listing {
            Some(names) => listing_lines(names),
            None => Seq::empty(),
        }
    }
}

impl Cli {
    /// The tool with the given configuration and command line.
    pub fn new(config: Config, args: Args) -> (r: Self)
        ensures
            r@ == (CliView { config: config@, args: args@ }),
    {
        Cli { config, args }
    }

    /// Where the manifest of the named plugin is.
    pub fn manifest(&self) -> (r: String)
        ensures
            r@ == manifest_path(self@.config, self@.args.spinlet),
    {
        self.config.manifest(self.args.spinlet())
    }

    /// Where the binary of the named plugin is.
    pub fn binary(&self) -> (r: String)
        ensures
            r@ == binary_path(self@.config, self@.args.spinlet),
    {
        self.config.binary(self.args.spinlet())
    }

    /// The lines the tool prints, given whether the named plugin's binary
    /// exists and, when it does not, the plugins listed (`None` when they
    /// could not be listed).
    pub fn run(&self, binary_exists: bool, listing: &Option<Vec<String>>) -> (r: Vec<String>)
        ensures
            texts(r@) == report_lines(
                self@.args.spinlet,
                binary_exists,
                match *listing {
                    Some(v) => Some(texts(v@)),
                    None => None,
                },
            ),
    {
        let mut lines: Vec<String> = Vec::new();
        if binary_exists {
            assert(texts(lines@) =~= Seq::empty());
            return lines;
        }
        let mut first = String::from_str("Spinlet not found: ");
        first.append(self.args.spinlet());
        lines.push(first);
        assert(texts(lines@) =~= seq![first@]);
        match listing {
            None => {
                assert(texts(lines@) =~= seq![first@] + Seq::<Seq<char>>::empty());
            },
            Some(names) => {
                let header = String::from_str("Available spinlets:");
                lines.push(header);
                let ghost want = listing_lines(texts(names@));
                assert(texts(lines@) =~= seq![first@] + want.take(1));
                let mut i: usize = 0;
                while i < names.len()
                    invariant
                        i <= names.len(),
                        want == listing_lines(texts(names@)),
                        texts(lines@) == seq![first@] + want.take(i + 1),
                    decreases names.len() - i,
                {
                    let mut line = String::from_str(" - ");
                    line.append(names[i].as_str());
                    proof {
                        assert(texts(lines@.push(line)) =~= texts(lines@).push(line@));
                        assert(seq![first@] + want.take(i + 2) =~= (seq![first@] + want.take(i + 1)).push(line@));
                    }
                    lines.push(line);
                    i = i + 1;
                }
                assert(want.take(i + 1) =~= want);
            },
        }
        lines
    }
}

} // verus!
