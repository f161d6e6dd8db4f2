//! The command line of the tool: the plugin, the root and the plugin's arguments.

use vstd::prelude::*;
use vstd::string::StringExecFns;
use crate::paths::{join, joined_path};
use crate::setup::texts;

verus! {

/// The parsed command line.
pub struct Args {
    spinlet: String,
    root: String,
    spinlet_args: Vec<String>,
}

/// The model of an `Args`.
pub struct ArgsView {
    pub spinlet: Seq<char>,
    pub root: Seq<char>,
    pub spinlet_args: Seq<Seq<char>>,
}

impl View for Args {
    type V = ArgsView;

    closed spec fn view(&self) -> ArgsView {
        ArgsView { spinlet: self.spinlet@, root: self.root@, spinlet_args: texts(self.spinlet_args@) }
    }
}

impl Args {
    /// A command line naming `spinlet`, the root and the plugin's arguments.
    pub fn new(spinlet: String, root: String, spinlet_args: Vec<String>) -> (r: Self)
        ensures
            r@ == (ArgsView { spinlet: spinlet@, root: root@, spinlet_args: texts(spinlet_args@) }),
    {
        Args { spinlet, root, spinlet_args }
    }

    /// The command line with nothing given: plugin `shell`, root `.spinlet`, no argument.
    pub fn default() -> (r: Self)
        ensures
            r@.spinlet == "shell"@,
            r@.root == ".spinlet"@,
            r@.spinlet_args.len() == 0,
    {
        let r = Args { spinlet: String::from_str("shell"), root: String::from_str(".spinlet"), spinlet_args: Vec::new() };
        assert(texts(r.spinlet_args@) =~= Seq::empty());
        r
    }

    /// The plugin to run.
    pub fn spinlet(&self) -> (r: &str)
        ensures
            r@ == self@.spinlet,
    {
        self.spinlet.as_str()
    }

    /// The root directory.
    pub fn root(&self) -> (r: &str)
        ensures
            r@ == self@.root,
    {
        self.root.as_str()
    }

    /// The arguments passed to the plugin.
    pub fn spinlet_args(&self) -> (r: &[String])
        ensures
            texts(r@) == self@.spinlet_args,
    {
        self.spinlet_args.as_slice()
    }

    /// Where the configuration is: `config.toml` in the root.
    pub fn config(&self) -> (r: String)
        ensures
            r@ == joined_path(self@.root, "config.toml"@),
    {
        join(self.root.as_str(), "config.toml")
    }
}

} // verus!
