//! The launcher's configuration: where manifests and binaries live, and
//! which commands are aliases.

use vstd::prelude::*;
use vstd::string::StringExecFns;
use crate::keyed::{lemma_lookup_ends, lemma_lookup_found, lemma_lookup_take, lookup};
use crate::listing::{entry_views, list_names, listed_names, DirEntry};
use crate::paths::{contains_separator, has_separator, join, joined_path, lemma_plain_extensions, path_with_extension, with_extension};
use crate::setup::texts;

verus! {

/// The launcher's configuration.
pub struct Config {
    name: String,
    version: String,
    repository: String,
    root: String,
    etc: String,
    etc_ext: String,
    bin: String,
    bin_ext: String,
    lib: String,
    lib_ext: String,
    alias: Vec<(String, String)>,
}

/// The model of a `Config`.
pub struct ConfigView {
    pub name: Seq<char>,
    pub version: Seq<char>,
    pub repository: Seq<char>,
    pub root: Seq<char>,
    pub etc: Seq<char>,
    pub etc_ext: Seq<char>,
    pub bin: Seq<char>,
    pub bin_ext: Seq<char>,
    pub lib: Seq<char>,
    pub lib_ext: Seq<char>,
    pub alias: Seq<(Seq<char>, Seq<char>)>,
}

impl View for Config {
    type V = ConfigView;

    closed spec fn view(&self) -> ConfigView {
        ConfigView {
            name: self.name@,
            version: self.version@,
            repository: self.repository@,
            root: self.root@,
            etc: self.etc@,
            etc_ext: self.etc_ext@,
            bin: self.bin@,
            bin_ext: self.bin_ext@,
            lib: self.lib@,
            lib_ext: self.lib_ext@,
            alias: crate::setup::text_pairs(self.alias@),
        }
    }
}

impl Config {
    /// A configuration's manifest and binary extensions hold no path separator.
    #[verifier::type_invariant]
    spec fn extensions_are_plain(self) -> bool {
        !has_separator(self.etc_ext@) && !has_separator(self.bin_ext@)
    }
}

/// Where the manifest of `spinlet` is: `root/etc/spinlet`, with the
/// manifest extension.
pub open spec fn manifest_path(c: ConfigView, spinlet: Seq<char>) -> Seq<char> {
    path_with_extension(joined_path(joined_path(c.root, c.etc), spinlet), c.etc_ext)
}

/// Where the binary of `spinlet` is: `root/bin/spinlet`, with the binary
/// extension.
pub open spec fn binary_path(c: ConfigView, spinlet: Seq<char>) -> Seq<char> {
    path_with_extension(joined_path(joined_path(c.root, c.bin), spinlet), c.bin_ext)
}

/// A command is an alias exactly when an alias entry has its name, and it
/// stands for what the last such entry says.
pub proof fn alias_exactly_when_named(c: ConfigView, name: Seq<char>)
    ensures
        lookup(c.alias, name) is Some <==> exists|i: int| 0 <= i < c.alias.len() && c.alias[i].0 == name,
        lookup(c.alias, name) is Some ==> exists|i: int|
            0 <= i < c.alias.len() && c.alias[i].0 == name && lookup(c.alias, name) == Some(c.alias[i].1)
                && forall|j: int| i < j < c.alias.len() ==> c.alias[j].0 != name,
{
    lemma_lookup_found(c.alias, name);
}

impl Config {
    /// A configuration with the given fields; `alias` maps command names to
    /// what they stand for, the last entry of a name winning.  There is none
    /// when the manifest or binary extension holds a path separator.
    pub fn new(
        name: String,
        version: String,
        repository: String,
        root: String,
        etc: String,
        etc_ext: String,
        bin: String,
        bin_ext: String,
        lib: String,
        lib_ext: String,
        alias: Vec<(String, String)>,
    ) -> (r: Option<Self>)
        ensures
            r is Some <==> !has_separator(etc_ext@) && !has_separator(bin_ext@),
            r matches Some(c) ==> c@ == (ConfigView {
                name: name@,
                version: version@,
                repository: repository@,
                root: root@,
                etc: etc@,
                etc_ext: etc_ext@,
                bin: bin@,
                bin_ext: bin_ext@,
                lib: lib@,
                lib_ext: lib_ext@,
                alias: crate::setup::text_pairs(alias@),
            }),
    {
        if contains_separator(etc_ext.as_str()) || contains_separator(bin_ext.as_str()) {
            return None;
        }
        Some(Config { name, version, repository, root, etc, etc_ext, bin, bin_ext, lib, lib_ext, alias })
    }

    /// The configuration written when none exists: plugins live under
    /// `.spinlet`, manifests in `etc` as `.toml`, binaries in `bin` and
    /// libraries in `lib` as `.wasm`; the default plugin is `shell`; no alias.
    pub fn default() -> (r: Self)
        ensures
            r@.name == "shell"@,
            r@.version == Seq::<char>::empty(),
            r@.repository == Seq::<char>::empty(),
            r@.root == ".spinlet"@,
            r@.etc == "etc"@,
            r@.etc_ext == "toml"@,
            r@.bin == "bin"@,
            r@.bin_ext == "wasm"@,
            r@.lib == "lib"@,
            r@.lib_ext == "wasm"@,
            r@.alias.len() == 0,
    {
        proof {
            lemma_plain_extensions();
        }
        let r = Config {
            name: String::from_str("shell"),
            version: String::new(),
            repository: String::new(),
            root: String::from_str(".spinlet"),
            etc: String::from_str("etc"),
            etc_ext: String::from_str("toml"),
            bin: String::from_str("bin"),
            bin_ext: String::from_str("wasm"),
            lib: String::from_str("lib"),
            lib_ext: String::from_str("wasm"),
            alias: Vec::new(),
        };
        assert(crate::setup::text_pairs(r.alias@) =~= Seq::empty());
        r
    }

    /// The name of the default plugin.
    pub fn name(&self) -> (r: &str)
        ensures
            r@ == self@.name,
    {
        self.name.as_str()
    }

    /// The version of the launcher.
    pub fn version(&self) -> (r: &str)
        ensures
            r@ == self@.version,
    {
        self.version.as_str()
    }

    /// Where the launcher comes from.
    pub fn repository(&self) -> (r: &str)
        ensures
            r@ == self@.repository,
    {
        self.repository.as_str()
    }

    /// The extension of manifests.
    pub fn etc_ext(&self) -> (r: &str)
        ensures
            r@ == self@.etc_ext,
    {
        self.etc_ext.as_str()
    }

    /// The directory of binaries, under the root.
    pub fn bin(&self) -> (r: &str)
        ensures
            r@ == self@.bin,
    {
        self.bin.as_str()
    }

    /// The extension of binaries.
    pub fn bin_ext(&self) -> (r: &str)
        ensures
            r@ == self@.bin_ext,
    {
        self.bin_ext.as_str()
    }

    /// The directory of libraries, under the root.
    pub fn lib(&self) -> (r: &str)
        ensures
            r@ == self@.lib,
    {
        self.lib.as_str()
    }

    /// The extension of libraries.
    pub fn lib_ext(&self) -> (r: &str)
        ensures
            r@ == self@.lib_ext,
    {
        self.lib_ext.as_str()
    }

    /// The directory of manifests, under the root, as configured.
    pub fn etc_name(&self) -> (r: &str)
        ensures
            r@ == self@.etc,
    {
        self.etc.as_str()
    }

    /// The alias entries: each command name with what it stands for.
    pub fn aliases(&self) -> (r: &Vec<(String, String)>)
        ensures
            crate::setup::text_pairs(r@) == self@.alias,
    {
        &self.alias
    }

    /// The root directory.
    pub fn root(&self) -> (r: &str)
        ensures
            r@ == self@.root,
    {
        self.root.as_str()
    }

    /// The directory of the manifests: `root/etc`.
    pub fn etc(&self) -> (r: String)
        ensures
            r@ == joined_path(self@.root, self@.etc),
    {
        join(self.root.as_str(), self.etc.as_str())
    }

    /// Where the manifest of `spinlet` is.
    pub fn manifest(&self, spinlet: &str) -> (r: String)
        ensures
            r@ == manifest_path(self@, spinlet@),
    {
        proof {
            use_type_invariant(self);
        }
        let dir = join(self.root.as_str(), self.etc.as_str());
        let file = join(dir.as_str(), spinlet);
        with_extension(file.as_str(), self.etc_ext.as_str())
    }

    /// Where the binary of `spinlet` is.
    pub fn binary(&self, spinlet: &str) -> (r: String)
        ensures
            r@ == binary_path(self@, spinlet@),
    {
        proof {
            use_type_invariant(self);
        }
        let dir = join(self.root.as_str(), self.bin.as_str());
        let file = join(dir.as_str(), spinlet);
        with_extension(file.as_str(), self.bin_ext.as_str())
    }

    /// What the command `name` stands for, when it is an alias.
    pub fn alias(&self, name: &str) -> (r: Option<&String>)
        ensures
            match (r, lookup(self@.alias, name@)) {
                (Some(s), Some(t)) => s@ == t,
                (None, None) => true,
                _ => false,
            },
    {
        let key = name.to_owned();
        let ghost entries = self@.alias;
        let mut i: usize = self.alias.len();
        proof {
            lemma_lookup_ends(entries, name@);
        }
        while i > 0
            invariant
                i <= self.alias.len(),
                key@ == name@,
                entries == self@.alias,
                lookup(entries, name@) == lookup(entries.take(i as int), name@),
            decreases i,
        {
            proof {
                lemma_lookup_take(entries, name@, i as int);
            }
            if self.alias[i - 1].0 == key {
                return Some(&self.alias[i - 1].1);
            }
            i = i - 1;
        }
        None
    }

    /// The directory that plugins are listed from: the configuration's
    /// name joined with `bin`.
    pub fn spinlets_dir(&self) -> (r: String)
        ensures
            r@ == joined_path(self@.name, self@.bin),
    {
        join(self.name.as_str(), self.bin.as_str())
    }

    /// The plugins found among the entries of `spinlets_dir` (`None` where
    /// an entry could not be read): the stems of the existing regular files
    /// whose extension is present and differs from the binary extension.
    pub fn list_spinlets(&self, entries: &Vec<Option<DirEntry>>) -> (r: Vec<String>)
        ensures
            texts(r@) == listed_names(entry_views(entries@), self@.bin_ext),
    {
        list_names(entries, &self.bin_ext)
    }
}

} // verus!
