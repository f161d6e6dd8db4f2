//! What a WASI context is to be built with.
//!
//! A `WasiSetup` lists, in order, what the plugin is given: its three
//! standard streams, its arguments, its environment variables and its
//! preopened directories.  The directories themselves are opened by the
//! caller from a list of `OpenRequest`s; a `Preopen` names the request whose
//! handle it uses.

use vstd::prelude::*;

verus! {

/// Where the plugin's standard input comes from.
#[derive(Clone, Copy, Debug, PartialEq, Eq, Structural)]
pub enum InputSource {
    /// The host's standard input, as `wasmtime_wasi::preview2::stdio::stdin()`.
    Inherit,
    /// The host's standard input read through a `ReadPipe`.
    HostPipe,
    /// A reader that is always at its end (`std::io::empty()`).
    Empty,
}

/// Where the plugin's standard output or error goes.
#[derive(Clone, Copy, Debug, PartialEq, Eq, Structural)]
pub enum OutputTarget {
    /// The host's stream, as `wasmtime_wasi::preview2::stdio`.
    Inherit,
    /// The host's stream written through a `WritePipe`.
    HostPipe,
    /// A writer that discards everything (`std::io::sink()`).
    Sink,
}

/// What a path is opened relative to.
#[derive(Clone, Copy, Debug, PartialEq, Eq, Structural)]
pub enum OpenBase {
    /// The process's own view of the file system (ambient authority).
    Ambient,
    /// The workspace directory that the caller opened first.
    Workspace,
}

/// How a path is opened.
#[derive(Clone, Copy, Debug, PartialEq, Eq, Structural)]
pub enum OpenKind {
    /// As a directory.
    Dir,
    /// As a file, with the given read and write options.
    File { read: bool, write: bool },
}

/// A path that the caller opens before the context is built.
pub struct OpenRequest {
    pub path: String,
    pub base: OpenBase,
    pub kind: OpenKind,
}

/// One preopened directory: the handle of request `request`, granted
/// `dir_perms` on the directory and `file_perms` on its files, seen by the
/// plugin at `guest_path`.
pub struct Preopen {
    pub request: usize,
    pub dir_perms: usize,
    pub file_perms: usize,
    pub guest_path: String,
}

/// What a WASI context is built with.  A stream left `None` keeps the
/// builder's default (an empty input, discarding outputs).
pub struct WasiSetup {
    pub stdin: Option<InputSource>,
    pub stdout: Option<OutputTarget>,
    pub stderr: Option<OutputTarget>,
    pub args: Vec<String>,
    pub env: Vec<(String, String)>,
    pub preopens: Vec<Preopen>,
}

/// The model of an `OpenRequest`.
pub struct OpenRequestView {
    pub path: Seq<char>,
    pub base: OpenBase,
    pub kind: OpenKind,
}

/// The model of a `Preopen`.
pub struct PreopenView {
    pub request: nat,
    pub dir_perms: nat,
    pub file_perms: nat,
    pub guest_path: Seq<char>,
}

/// The model of a `WasiSetup`.
pub struct SetupView {
    pub stdin: Option<InputSource>,
    pub stdout: Option<OutputTarget>,
    pub stderr: Option<OutputTarget>,
    pub args: Seq<Seq<char>>,
    pub env: Seq<(Seq<char>, Seq<char>)>,
    pub preopens: Seq<PreopenView>,
}

impl View for OpenRequest {
    type V = OpenRequestView;

    open spec fn view(&self) -> OpenRequestView {
        OpenRequestView { path: self.path@, base: self.base, kind: self.kind }
    }
}

impl View for Preopen {
    type V = PreopenView;

    open spec fn view(&self) -> PreopenView {
        PreopenView {
            request: self.request as nat,
            dir_perms: self.dir_perms as nat,
            file_perms: self.file_perms as nat,
            guest_path: self.guest_path@,
        }
    }
}

/// The texts of a sequence of strings.
pub open spec fn texts(v: Seq<String>) -> Seq<Seq<char>> {
    v.map_values(|s: String| s@)
}

/// The texts of a sequence of string pairs.
pub open spec fn text_pairs(v: Seq<(String, String)>) -> Seq<(Seq<char>, Seq<char>)> {
    v.map_values(|p: (String, String)| (p.0@, p.1@))
}

/// The models of a sequence of preopens.
pub open spec fn preopen_views(v: Seq<Preopen>) -> Seq<PreopenView> {
    v.map_values(|p: Preopen| p@)
}

/// The models of a sequence of open requests.
pub open spec fn request_views(v: Seq<OpenRequest>) -> Seq<OpenRequestView> {
    v.map_values(|r: OpenRequest| r@)
}

impl View for WasiSetup {
    type V = SetupView;

    open spec fn view(&self) -> SetupView {
        SetupView {
            stdin: self.stdin,
            stdout: self.stdout,
            stderr: self.stderr,
            args: texts(self.args@),
            env: text_pairs(self.env@),
            preopens: preopen_views(self.preopens@),
        }
    }
}

/// The items of `items` whose flag in `keep` holds, in their order.
pub open spec fn select<A>(items: Seq<A>, keep: Seq<bool>) -> Seq<A>
    decreases items.len(),
{
    if items.len() == 0 {
        Seq::empty()
    } else {
        let n = items.len() - 1;
        let prev = select(items.take(n), keep.take(n));
        if keep[n] {
            prev.push(items[n])
        } else {
            prev
        }
    }
}

/// Selecting from one more item extends the selection by that item when
/// its flag holds.
pub proof fn lemma_select_step<A>(items: Seq<A>, keep: Seq<bool>, i: int)
    requires
        0 <= i < items.len(),
        items.len() <= keep.len(),
    ensures
        select(items.take(i + 1), keep.take(i + 1)) == if keep[i] {
            select(items.take(i), keep.take(i)).push(items[i])
        } else {
            select(items.take(i), keep.take(i))
        },
{
    assert(items.take(i + 1).take(i) =~= items.take(i));
    assert(keep.take(i + 1).take(i) =~= keep.take(i));
}

/// Every item of a selection is an item whose flag holds.
pub proof fn lemma_select_from<A>(items: Seq<A>, keep: Seq<bool>, k: int)
    requires
        items.len() <= keep.len(),
        0 <= k < select(items, keep).len(),
    ensures
        exists|i: int| 0 <= i < items.len() && keep[i] && select(items, keep)[k] == items[i],
    decreases items.len(),
{
    let n = items.len() - 1;
    let prev = select(items.take(n), keep.take(n));
    if k < prev.len() {
        lemma_select_from(items.take(n), keep.take(n), k);
        let i = choose|i: int| 0 <= i < items.take(n).len() && keep.take(n)[i] && prev[k] == items.take(n)[i];
        assert(0 <= i < items.len() && keep[i] && select(items, keep)[k] == items[i]);
    } else {
        assert(keep[n] && select(items, keep)[k] == items[n]);
    }
}

/// Two items of a selection come, in the same order, from two distinct
/// items whose flags hold.
pub proof fn lemma_select_from_ordered<A>(items: Seq<A>, keep: Seq<bool>, k1: int, k2: int)
    requires
        items.len() <= keep.len(),
        0 <= k1 < k2 < select(items, keep).len(),
    ensures
        exists|i1: int, i2: int|
            0 <= i1 < i2 < items.len() && keep[i1] && keep[i2] && select(items, keep)[k1] == items[i1]
                && select(items, keep)[k2] == items[i2],
    decreases items.len(),
{
    let n = items.len() - 1;
    let prev = select(items.take(n), keep.take(n));
    if k2 < prev.len() {
        lemma_select_from_ordered(items.take(n), keep.take(n), k1, k2);
        let (i1, i2) = choose|i1: int, i2: int|
            0 <= i1 < i2 < items.take(n).len() && keep.take(n)[i1] && keep.take(n)[i2] && prev[k1]
                == items.take(n)[i1] && prev[k2] == items.take(n)[i2];
        assert(select(items, keep)[k1] == items[i1] && select(items, keep)[k2] == items[i2]);
    } else {
        lemma_select_from(items.take(n), keep.take(n), k1);
        let i1 = choose|i1: int| 0 <= i1 < items.take(n).len() && keep.take(n)[i1] && prev[k1] == items.take(n)[i1];
        assert(select(items, keep)[k1] == items[i1] && select(items, keep)[k2] == items[n]);
    }
}

/// Every item whose flag holds is in the selection.
pub proof fn lemma_select_keeps<A>(items: Seq<A>, keep: Seq<bool>, i: int)
    requires
        items.len() <= keep.len(),
        0 <= i < items.len(),
        keep[i],
    ensures
        select(items, keep).contains(items[i]),
    decreases items.len(),
{
    let n = items.len() - 1;
    let prev = select(items.take(n), keep.take(n));
    if i == n {
        assert(select(items, keep)[prev.len() as int] == items[i]);
    } else {
        lemma_select_keeps(items.take(n), keep.take(n), i);
        let k = choose|k: int| 0 <= k < prev.len() && prev[k] == items.take(n)[i];
        if keep[n] {
            assert(select(items, keep)[k] == items[i]);
        } else {
            assert(select(items, keep)[k] == items[i]);
        }
    }
}

/// A selection is no longer than what it selects from.
pub proof fn lemma_select_len<A>(items: Seq<A>, keep: Seq<bool>)
    requires
        items.len() <= keep.len(),
    ensures
        select(items, keep).len() <= items.len(),
        (forall|i: int| 0 <= i < items.len() ==> keep[i]) ==> select(items, keep) == items,
    decreases items.len(),
{
    if items.len() > 0 {
        let n = items.len() - 1;
        lemma_select_len(items.take(n), keep.take(n));
        if forall|i: int| 0 <= i < items.len() ==> keep[i] {
            assert(forall|i: int| 0 <= i < items.take(n).len() ==> keep.take(n)[i]);
            assert(items.take(n).push(items[n]) =~= items);
        }
    }
}

/// The values of `items` in order when none is an error, else the first error.
pub open spec fn collect<A>(items: Seq<Result<A, Seq<char>>>) -> Result<Seq<A>, Seq<char>>
    decreases items.len(),
{
    if items.len() == 0 {
        Ok(Seq::empty())
    } else {
        let n = items.len() - 1;
        match collect(items.take(n)) {
            Err(e) => Err(e),
            Ok(prev) => match items[n] {
                Ok(a) => Ok(prev.push(a)),
                Err(e) => Err(e),
            },
        }
    }
}

/// Collecting one more item: an earlier error stays, else the item's value
/// is appended or its error is the result.
pub proof fn lemma_collect_step<A>(items: Seq<Result<A, Seq<char>>>, i: int)
    requires
        0 <= i < items.len(),
    ensures
        collect(items.take(i + 1)) == match collect(items.take(i)) {
            Err(e) => Err(e),
            Ok(prev) => match items[i] {
                Ok(a) => Ok(prev.push(a)),
                Err(e) => Err(e),
            },
        },
{
    assert(items.take(i + 1).take(i) =~= items.take(i));
}

/// Once a prefix of the items holds an error, the whole sequence yields it.
pub proof fn lemma_collect_err<A>(items: Seq<Result<A, Seq<char>>>, i: int, e: Seq<char>)
    requires
        0 <= i <= items.len(),
        collect(items.take(i)) == Err::<Seq<A>, Seq<char>>(e),
    ensures
        collect(items) == Err::<Seq<A>, Seq<char>>(e),
    decreases items.len() - i,
{
    if i == items.len() {
        assert(items.take(i) =~= items);
    } else {
        lemma_collect_step(items, i);
        lemma_collect_err(items, i + 1, e);
    }
}

/// Collecting succeeds exactly when no item is an error, and then yields
/// every item's value in order.
pub proof fn lemma_collect_ok<A>(items: Seq<Result<A, Seq<char>>>)
    ensures
        collect(items) is Ok <==> forall|i: int| 0 <= i < items.len() ==> items[i] is Ok,
        collect(items) is Ok ==> collect(items)->Ok_0.len() == items.len() && forall|i: int|
            0 <= i < items.len() ==> items[i] == Ok::<A, Seq<char>>(collect(items)->Ok_0[i]),
    decreases items.len(),
{
    if items.len() > 0 {
        let n = items.len() - 1;
        lemma_collect_ok(items.take(n));
        if !(collect(items.take(n)) is Ok) {
            let i = choose|i: int| 0 <= i < items.take(n).len() && !(items.take(n)[i] is Ok);
            assert(!(items[i] is Ok));
        }
        if collect(items) is Ok {
            let v = collect(items)->Ok_0;
            let prev = collect(items.take(n))->Ok_0;
            assert forall|i: int| 0 <= i < items.len() implies items[i] == Ok::<A, Seq<char>>(v[i]) by {
                if i < n {
                    assert(items.take(n)[i] == items[i]);
                }
            }
        }
    }
}

/// Pushing onto a vector of strings extends its texts by the new text.
pub proof fn lemma_texts_push(v: Seq<String>, s: String)
    ensures
        texts(v.push(s)) == texts(v).push(s@),
{
    assert(texts(v.push(s)) =~= texts(v).push(s@));
}

/// Pushing onto a vector of pairs extends its texts by the new pair.
pub proof fn lemma_text_pairs_push(v: Seq<(String, String)>, p: (String, String))
    ensures
        text_pairs(v.push(p)) == text_pairs(v).push((p.0@, p.1@)),
{
    assert(text_pairs(v.push(p)) =~= text_pairs(v).push((p.0@, p.1@)));
}

/// Pushing onto a vector of preopens extends its models by the new model.
pub proof fn lemma_preopen_views_push(v: Seq<Preopen>, p: Preopen)
    ensures
        preopen_views(v.push(p)) == preopen_views(v).push(p@),
{
    assert(preopen_views(v.push(p)) =~= preopen_views(v).push(p@));
}

/// Pushing onto a vector of requests extends its models by the new model.
pub proof fn lemma_request_views_push(v: Seq<OpenRequest>, r: OpenRequest)
    ensures
        request_views(v.push(r)) == request_views(v).push(r@),
{
    assert(request_views(v.push(r)) =~= request_views(v).push(r@));
}

/// A copy of a vector of strings, text for text.
pub fn copy_strings(v: &Vec<String>) -> (r: Vec<String>)
    ensures
        texts(r@) == texts(v@),
{
    let mut r: Vec<String> = Vec::new();
    let mut i: usize = 0;
    while i < v.len()
        invariant
            i <= v.len(),
            texts(r@) == texts(v@.take(i as int)),
        decreases v.len() - i,
    {
        proof {
            lemma_texts_push(r@, v[i as int]);
            assert(v@.take(i as int + 1) =~= v@.take(i as int).push(v[i as int]));
            lemma_texts_push(v@.take(i as int), v[i as int]);
        }
        r.push(v[i].clone());
        i = i + 1;
    }
    assert(v@.take(i as int) =~= v@);
    r
}

} // verus!
