//! Which host arguments and environment variables a plugin may see.

use vstd::prelude::*;
use crate::setup::{collect, copy_strings, lemma_texts_push, lemma_collect_err, lemma_collect_step, lemma_text_pairs_push, text_pairs, texts};

verus! {

/// Whether the plugin is given the host's command-line arguments.
pub struct ArgsAccess {
    enabled: bool,
}

/// One host environment variable that the plugin is given.
pub struct VarAccess {
    key: String,
}

/// The host arguments and environment variables a plugin may see.
pub struct EnvAccess {
    var: Vec<VarAccess>,
    args: ArgsAccess,
}

/// The model of an `EnvAccess`: the variable names, in order, and whether
/// the arguments are passed.
pub struct EnvAccessView {
    pub var: Seq<Seq<char>>,
    pub args: bool,
}

impl View for ArgsAccess {
    type V = bool;

    closed spec fn view(&self) -> bool {
        self.enabled
    }
}

impl View for VarAccess {
    type V = Seq<char>;

    closed spec fn view(&self) -> Seq<char> {
        self.key@
    }
}

/// The names of a sequence of variable entries.
pub open spec fn var_keys(v: Seq<VarAccess>) -> Seq<Seq<char>> {
    v.map_values(|a: VarAccess| a@)
}

impl View for EnvAccess {
    type V = EnvAccessView;

    closed spec fn view(&self) -> EnvAccessView {
        EnvAccessView { var: var_keys(self.var@), args: self.args@ }
    }
}

/// The texts of a sequence of lookups of host variables: the value, or the
/// text of the error.
pub open spec fn lookup_texts(v: Seq<Result<String, String>>) -> Seq<Result<Seq<char>, Seq<char>>> {
    v.map_values(|r: Result<String, String>| match r {
        Ok(s) => Ok(s@),
        Err(e) => Err(e@),
    })
}

/// The arguments a plugin gets: all of the host's when allowed, else none.
pub open spec fn granted_args(allowed: bool, host_args: Seq<Seq<char>>) -> Seq<Seq<char>> {
    if allowed {
        host_args
    } else {
        Seq::empty()
    }
}

/// The environment a plugin gets: each named variable, in order, with the
/// host's value; the first lookup that failed, if any, is the error.
pub open spec fn var_grants(keys: Seq<Seq<char>>, lookups: Seq<Result<Seq<char>, Seq<char>>>) -> Result<
    Seq<(Seq<char>, Seq<char>)>,
    Seq<char>,
> {
    collect(
        Seq::new(
            keys.len(),
            |i: int|
                match lookups[i] {
                    Ok(v) => Ok((keys[i], v)),
                    Err(e) => Err(e),
                },
        ),
    )
}

impl ArgsAccess {
    /// Access to the host arguments, allowed when `enabled`.
    pub fn new(enabled: bool) -> (r: Self)
        ensures
            r@ == enabled,
    {
        ArgsAccess { enabled }
    }

    /// Whether the host arguments are passed.
    pub fn enabled(&self) -> (r: bool)
        ensures
            r == self@,
    {
        self.enabled
    }

    /// The arguments the plugin gets, given the host's.
    pub fn provide(&self, host_args: &Vec<String>) -> (r: Vec<String>)
        ensures
            texts(r@) == granted_args(self@, texts(host_args@)),
    {
        if !self.enabled {
            let r: Vec<String> = Vec::new();
            assert(texts(r@) =~= Seq::empty());
            return r;
        }
        copy_strings(host_args)
    }
}

impl VarAccess {
    /// Access to the host variable `key`.
    pub fn new(key: String) -> (r: Self)
        ensures
            r@ == key@,
    {
        VarAccess { key }
    }

    /// The name of the variable.
    pub fn key(&self) -> (r: &String)
        ensures
            r@ == self@,
    {
        &self.key
    }

    /// The variable the plugin gets, given the host's lookup of it: its
    /// name with the host's value, or the lookup's error.
    pub fn provide(&self, lookup: &Result<String, String>) -> (r: Result<(String, String), String>)
        ensures
            match (r, *lookup) {
                (Ok(p), Ok(v)) => p.0@ == self@ && p.1@ == v@,
                (Err(e), Err(f)) => e@ == f@,
                _ => false,
            },
    {
        match lookup {
            Ok(value) => Ok((self.key.clone(), value.clone())),
            Err(e) => Err(e.clone()),
        }
    }
}

impl EnvAccess {
    /// Access to the named variables and, when `args` allows, the arguments.
    pub fn new(var: Vec<VarAccess>, args: ArgsAccess) -> (r: Self)
        ensures
            r@ == (EnvAccessView { var: var_keys(var@), args: args@ }),
    {
        EnvAccess { var, args }
    }

    /// The variable entries.
    pub fn var(&self) -> (r: &Vec<VarAccess>)
        ensures
            var_keys(r@) == self@.var,
    {
        &self.var
    }

    /// The names of the variables, in order.
    pub fn var_names(&self) -> (r: Vec<String>)
        ensures
            texts(r@) == self@.var,
    {
        let mut r: Vec<String> = Vec::new();
        let mut i: usize = 0;
        assert(texts(r@) =~= var_keys(self.var@).take(0));
        while i < self.var.len()
            invariant
                i <= self.var.len(),
                texts(r@) == var_keys(self.var@).take(i as int),
            decreases self.var.len() - i,
        {
            let name = self.var[i].key.clone();
            proof {
                lemma_texts_push(r@, name);
                assert(var_keys(self.var@).take(i as int + 1) =~= var_keys(self.var@).take(i as int).push(name@));
            }
            r.push(name);
            i = i + 1;
        }
        assert(var_keys(self.var@).take(i as int) =~= var_keys(self.var@));
        r
    }

    /// The argument entry.
    pub fn args(&self) -> (r: &ArgsAccess)
        ensures
            r@ == self@.args,
    {
        &self.args
    }

    /// The arguments and variables the plugin gets, given the host's
    /// arguments and the host's lookup of each named variable: the
    /// arguments when allowed and every variable, or the first failed
    /// lookup's error.
    pub fn provide(&self, host_args: &Vec<String>, lookups: &Vec<Result<String, String>>) -> (r: Result<(Vec<String>, Vec<(String, String)>), String>)
        requires
            lookups@.len() == self@.var.len(),
        ensures
            match (r, var_grants(self@.var, lookup_texts(lookups@))) {
                (Ok((a, v)), Ok(w)) => texts(a@) == granted_args(self@.args, texts(host_args@))
                    && text_pairs(v@) == w,
                (Err(e), Err(f)) => e@ == f,
                _ => false,
            },
    {
        let args = self.args.provide(host_args);
        match self.provide_vars(lookups) {
            Ok(vars) => Ok((args, vars)),
            Err(e) => Err(e),
        }
    }

    /// The environment the plugin gets, given the host's lookup of each
    /// named variable (`lookups[i]` for the `i`-th name): every variable
    /// with its value, or the first failed lookup's error.
    pub fn provide_vars(&self, lookups: &Vec<Result<String, String>>) -> (r: Result<Vec<(String, String)>, String>)
        requires
            lookups@.len() == self@.var.len(),
        ensures
            match (r, var_grants(self@.var, lookup_texts(lookups@))) {
                (Ok(v), Ok(w)) => text_pairs(v@) == w,
                (Err(e), Err(f)) => e@ == f,
                _ => false,
            },
    {
        let ghost keys = self@.var;
        let ghost items = Seq::new(
            keys.len(),
            |i: int|
                match lookup_texts(lookups@)[i] {
                    Ok(v) => Ok::<(Seq<char>, Seq<char>), Seq<char>>((keys[i], v)),
                    Err(e) => Err(e),
                },
        );
        let mut r: Vec<(String, String)> = Vec::new();
        let mut i: usize = 0;
        assert(items.take(0) =~= Seq::empty());
        assert(text_pairs(r@) =~= Seq::empty());
        while i < self.var.len()
            invariant
                i <= self.var.len(),
                lookups@.len() == self.var@.len(),
                keys == var_keys(self.var@),
                items == Seq::new(
                    keys.len(),
                    |i: int|
                        match lookup_texts(lookups@)[i] {
                            Ok(v) => Ok::<(Seq<char>, Seq<char>), Seq<char>>((keys[i], v)),
                            Err(e) => Err(e),
                        },
                ),
                collect(items.take(i as int)) == Ok::<Seq<(Seq<char>, Seq<char>)>, Seq<char>>(
                    text_pairs(r@),
                ),
            decreases self.var.len() - i,
        {
            proof {
                lemma_collect_step(items, i as int);
            }
            match self.var[i].provide(&lookups[i]) {
                Ok(pair) => {
                    proof {
                        lemma_text_pairs_push(r@, pair);
                    }
                    r.push(pair);
                },
                Err(e) => {
                    proof {
                        lemma_collect_err(items, i as int + 1, e@);
                    }
                    return Err(e);
                },
            }
            i = i + 1;
        }
        assert(items.take(i as int) =~= items);
        Ok(r)
    }
}

} // verus!
