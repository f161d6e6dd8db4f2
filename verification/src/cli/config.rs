//! Where the command-line tool finds manifests and binaries.

use vstd::prelude::*;
use vstd::string::StringExecFns;
use crate::listing::{entry_views, list_names, listed_names, DirEntry};
use crate::paths::{contains_separator, has_separator, join, joined_path, lemma_plain_extensions, path_with_extension, with_extension};
use crate::setup::texts;

verus! {

/// The directory layout of installed plugins.
pub struct Config {
    root: String,
    etc: String,
    etc_ext: String,
    bin: String,
    bin_ext: String,
    lib: String,
    lib_ext: String,
}

/// The model of a `Config`.
pub struct ConfigView {
    pub root: Seq<char>,
    pub etc: Seq<char>,
    pub etc_ext: Seq<char>,
    pub bin: Seq<char>,
    pub bin_ext: Seq<char>,
    pub lib: Seq<char>,
    pub lib_ext: Seq<char>,
}

impl View for Config {
    type V = ConfigView;

    closed spec fn view(&self) -> ConfigView {
        ConfigView {
            root: self.root@,
            etc: self.etc@,
            etc_ext: self.etc_ext@,
            bin: self.bin@,
            bin_ext: self.bin_ext@,
            lib: self.lib@,
            lib_ext: self.lib_ext@,
        }
    }
}

impl Config {
    /// A configuration's manifest and binary extensions hold no path separator.
    #[verifier::type_invariant]
    spec fn extensions_are_plain(self) -> bool {
        !has_separator(self.etc_ext@) && !has_separator(self.bin_ext@)
    }
}

/// Where the manifest of `spinlet` is: `root/etc/spinlet` with the manifest extension.
pub open spec fn manifest_path(c: ConfigView, spinlet: Seq<char>) -> Seq<char> {
    path_with_extension(joined_path(joined_path(c.root, c.etc), spinlet), c.etc_ext)
}

/// Where the binary of `spinlet` is: `root/bin/spinlet` with the binary extension.
pub open spec fn binary_path(c: ConfigView, spinlet: Seq<char>) -> Seq<char> {
    path_with_extension(joined_path(joined_path(c.root, c.bin), spinlet), c.bin_ext)
}

impl Config {
    /// A layout with the given directories and extensions.  There is none
    /// when the manifest or binary extension holds a path separator.
    pub fn new(
        root: String,
        etc: String,
        etc_ext: String,
        bin: String,
        bin_ext: String,
        lib: String,
        lib_ext: String,
    ) -> (r: Option<Self>)
        ensures
            r is Some <==> !has_separator(etc_ext@) && !has_separator(bin_ext@),
            r matches Some(c) ==> c@ == (ConfigView {
                root: root@,
                etc: etc@,
                etc_ext: etc_ext@,
                bin: bin@,
                bin_ext: bin_ext@,
                lib: lib@,
                lib_ext: lib_ext@,
            }),
    {
        if contains_separator(etc_ext.as_str()) || contains_separator(bin_ext.as_str()) {
            return None;
        }
        Some(Config { root, etc, etc_ext, bin, bin_ext, lib, lib_ext })
    }

    /// The layout used when nothing else is given: `.spinlet`, with
    /// manifests in `etc` as `.toml`, binaries in `bin` and libraries in
    /// `lib` as `.wasm`.
    pub fn default() -> (r: Self)
        ensures
            r@ == (ConfigView {
                root: ".spinlet"@,
                etc: "etc"@,
                etc_ext: "toml"@,
                bin: "bin"@,
                bin_ext: "wasm"@,
                lib: "lib"@,
                lib_ext: "wasm"@,
            }),
    {
        proof {
            lemma_plain_extensions();
        }
        Config {
            root: String::from_str(".spinlet"),
            etc: String::from_str("etc"),
            etc_ext: String::from_str("toml"),
            bin: String::from_str("bin"),
            bin_ext: String::from_str("wasm"),
            lib: String::from_str("lib"),
            lib_ext: String::from_str("wasm"),
        }
    }

    /// Where the manifest of `spinlet` is.
    pub fn manifest(&self, spinlet: &str) -> (r: String)
        ensures
            r@ == manifest_path(self@, spinlet@),
    {
        proof {
            use_type_invariant(self);
        }
        let dir = join(self.root.as_str(), self.etc.as_str());
        let file = join(dir.as_str(), spinlet);
        with_extension(file.as_str(), self.etc_ext.as_str())
    }

    /// Where the binary of `spinlet` is.
    pub fn binary(&self, spinlet: &str) -> (r: String)
        ensures
            r@ == binary_path(self@, spinlet@),
    {
        proof {
            use_type_invariant(self);
        }
        let dir = join(self.root.as_str(), self.bin.as_str());
        let file = join(dir.as_str(), spinlet);
        with_extension(file.as_str(), self.bin_ext.as_str())
    }

    /// The directory that plugins are listed from: `root/bin`.
    pub fn spinlets_dir(&self) -> (r: String)
        ensures
            r@ == joined_path(self@.root, self@.bin),
    {
        join(self.root.as_str(), self.bin.as_str())
    }

    /// The plugins found among the entries of `spinlets_dir` (`None` where
    /// an entry could not be read): the stems of the existing regular files
    /// whose extension is present and differs from the binary extension.
    pub fn list_spinlets(&self, entries: &Vec<Option<DirEntry>>) -> (r: Vec<String>)
        ensures
            texts(r@) == listed_names(entry_views(entries@), self@.bin_ext),
    {
        list_names(entries, &self.bin_ext)
    }
}

} // verus!
