//! Choosing the plugins that run before and after a command.

use vstd::prelude::*;
use crate::config::{binary_path, Config, ConfigView};
use crate::keyed::{is_last, lemma_lookup_ends, lemma_lookup_found, lemma_lookup_last, lemma_lookup_take, lookup};
use crate::manifest::{Manifest, ManifestView};
use crate::setup::{lemma_select_from, lemma_select_from_ordered, lemma_select_keeps, lemma_select_step, lemma_texts_push, select, texts};

verus! {

/// The plugins that hook into a command, with their manifests.
pub struct TaskLoader {
    manifests: Vec<(String, Manifest)>,
    before_hooks: Vec<String>,
    after_hooks: Vec<String>,
}

/// One plugin to run as a hook: its name and where its binary is.
pub struct HookTask {
    pub name: String,
    pub binary: String,
}

/// The model of a `TaskLoader`.
pub struct TaskLoaderView {
    pub manifests: Seq<(Seq<char>, ManifestView)>,
    pub before_hooks: Seq<Seq<char>>,
    pub after_hooks: Seq<Seq<char>>,
}

/// The model of a `HookTask`.
pub struct HookTaskView {
    pub name: Seq<char>,
    pub binary: Seq<char>,
}

/// The models of a sequence of named manifests.
pub open spec fn manifest_views(v: Seq<(String, Manifest)>) -> Seq<(Seq<char>, ManifestView)> {
    v.map_values(|e: (String, Manifest)| (e.0@, e.1@))
}

impl View for TaskLoader {
    type V = TaskLoaderView;

    closed spec fn view(&self) -> TaskLoaderView {
        TaskLoaderView {
            manifests: manifest_views(self.manifests@),
            before_hooks: texts(self.before_hooks@),
            after_hooks: texts(self.after_hooks@),
        }
    }
}

impl View for HookTask {
    type V = HookTaskView;

    open spec fn view(&self) -> HookTaskView {
        HookTaskView { name: self.name@, binary: self.binary@ }
    }
}

/// The models of a sequence of hook tasks.
pub open spec fn task_views(v: Seq<HookTask>) -> Seq<HookTaskView> {
    v.map_values(|t: HookTask| t@)
}

/// Whether a manifest hooks into `main` before it (`before`) or after it (`!before`).
pub open spec fn hooks_into(m: ManifestView, main: Seq<char>, before: bool) -> bool {
    match lookup(m.hooks, main) {
        Some(h) => if before {
            h.before
        } else {
            h.after
        },
        None => false,
    }
}

/// The names, in order, of the plugins whose manifests hook into `main`
/// before it (`before`) or after it (`!before`).  Of several manifests with
/// one name, the last is the plugin's manifest.
pub open spec fn hooked_names(ms: Seq<(Seq<char>, ManifestView)>, main: Seq<char>, before: bool) -> Seq<
    Seq<char>,
> {
    select(
        Seq::new(ms.len(), |i: int| ms[i].0),
        Seq::new(ms.len(), |i: int| is_last(ms, i) && hooks_into(ms[i].1, main, before)),
    )
}

/// The tasks for the named hooks, in order: each name that has a
/// manifest, with its binary's place under `c`.
pub open spec fn hook_tasks(
    ms: Seq<(Seq<char>, ManifestView)>,
    hooks: Seq<Seq<char>>,
    c: ConfigView,
) -> Seq<HookTaskView> {
    select(
        Seq::new(hooks.len(), |i: int| HookTaskView { name: hooks[i], binary: binary_path(c, hooks[i]) }),
        Seq::new(hooks.len(), |i: int| lookup(ms, hooks[i]) is Some),
    )
}

/// A plugin runs before (or after) `main` exactly when it has a manifest
/// (the last one of its name) and that manifest hooks into `main` on that side.
pub proof fn hooked_exactly(ms: Seq<(Seq<char>, ManifestView)>, main: Seq<char>, before: bool, name: Seq<char>)
    ensures
        hooked_names(ms, main, before).contains(name) <==> (lookup(ms, name) matches Some(m) && hooks_into(
            m,
            main,
            before,
        )),
{
    let names = Seq::new(ms.len(), |i: int| ms[i].0);
    let keep = Seq::new(ms.len(), |i: int| is_last(ms, i) && hooks_into(ms[i].1, main, before));
    if hooked_names(ms, main, before).contains(name) {
        let k = choose|k: int| 0 <= k < select(names, keep).len() && select(names, keep)[k] == name;
        lemma_select_from(names, keep, k);
        let i = choose|i: int| 0 <= i < names.len() && keep[i] && select(names, keep)[k] == names[i];
        lemma_lookup_last(ms, i);
    }
    if lookup(ms, name) matches Some(m) && hooks_into(m, main, before) {
        lemma_lookup_found(ms, name);
        let i = choose|i: int|
            0 <= i < ms.len() && ms[i].0 == name && lookup(ms, name) == Some(ms[i].1)
                && forall|j: int| i < j < ms.len() ==> ms[j].0 != name;
        assert(keep[i]);
        lemma_select_keeps(names, keep, i);
    }
}

/// A plugin runs before `main` exactly when the last manifest of its
/// name has a hook named `main` whose last entry turns its `before` side
/// on; and after `main` exactly when that entry turns its `after` side on.
pub proof fn hooked_by_hook_entries(ms: Seq<(Seq<char>, ManifestView)>, main: Seq<char>, name: Seq<char>)
    ensures
        hooked_names(ms, main, true).contains(name) <==> (lookup(ms, name) matches Some(m) && lookup(
            m.hooks,
            main,
        ) matches Some(h) && h.before),
        hooked_names(ms, main, false).contains(name) <==> (lookup(ms, name) matches Some(m) && lookup(
            m.hooks,
            main,
        ) matches Some(h) && h.after),
{
    hooked_exactly(ms, main, true, name);
    hooked_exactly(ms, main, false, name);
}

/// Every named hook that has a manifest gets a task.
pub proof fn manifested_hooks_get_tasks(ms: Seq<(Seq<char>, ManifestView)>, hooks: Seq<Seq<char>>, c: ConfigView, i: int)
    requires
        0 <= i < hooks.len(),
        lookup(ms, hooks[i]) is Some,
    ensures
        exists|k: int|
            0 <= k < hook_tasks(ms, hooks, c).len() && #[trigger] hook_tasks(ms, hooks, c)[k].name == hooks[i],
{
    let items = Seq::new(hooks.len(), |i: int| HookTaskView { name: hooks[i], binary: binary_path(c, hooks[i]) });
    let keep = Seq::new(hooks.len(), |i: int| lookup(ms, hooks[i]) is Some);
    lemma_select_keeps(items, keep, i);
    let k = choose|k: int| 0 <= k < select(items, keep).len() && select(items, keep)[k] == items[i];
    assert(hook_tasks(ms, hooks, c)[k].name == hooks[i]);
}

/// No plugin is listed twice before (or after) a command, however many
/// manifests have its name.
pub proof fn hooked_names_distinct(ms: Seq<(Seq<char>, ManifestView)>, main: Seq<char>, before: bool, k1: int, k2: int)
    requires
        0 <= k1 < k2 < hooked_names(ms, main, before).len(),
    ensures
        hooked_names(ms, main, before)[k1] != hooked_names(ms, main, before)[k2],
{
    let names = Seq::new(ms.len(), |i: int| ms[i].0);
    let keep = Seq::new(ms.len(), |i: int| is_last(ms, i) && hooks_into(ms[i].1, main, before));
    lemma_select_from_ordered(names, keep, k1, k2);
    let (i1, i2) = choose|i1: int, i2: int|
        0 <= i1 < i2 < names.len() && keep[i1] && keep[i2] && select(names, keep)[k1] == names[i1]
            && select(names, keep)[k2] == names[i2];
    assert(ms[i2].0 != ms[i1].0);
}

/// Every hook task names a plugin that has a manifest, and its binary is
/// where the configuration puts that plugin's binary.
pub proof fn hook_tasks_have_manifests(
    ms: Seq<(Seq<char>, ManifestView)>,
    hooks: Seq<Seq<char>>,
    c: ConfigView,
    k: int,
)
    requires
        0 <= k < hook_tasks(ms, hooks, c).len(),
    ensures
        lookup(ms, hook_tasks(ms, hooks, c)[k].name) is Some,
        hook_tasks(ms, hooks, c)[k].binary == binary_path(c, hook_tasks(ms, hooks, c)[k].name),
        hooks.contains(hook_tasks(ms, hooks, c)[k].name),
{
    let items = Seq::new(hooks.len(), |i: int| HookTaskView { name: hooks[i], binary: binary_path(c, hooks[i]) });
    let keep = Seq::new(hooks.len(), |i: int| lookup(ms, hooks[i]) is Some);
    lemma_select_from(items, keep, k);
    let i = choose|i: int| 0 <= i < items.len() && keep[i] && select(items, keep)[k] == items[i];
    assert(hooks[i] == hook_tasks(ms, hooks, c)[k].name);
}

/// Whether entry `i` is the last manifest of its name.
fn is_last_entry(v: &Vec<(String, Manifest)>, i: usize) -> (r: bool)
    requires
        i < v@.len(),
    ensures
        r == is_last(manifest_views(v@), i as int),
{
    let ghost ms = manifest_views(v@);
    let n = v.len();
    assert(i < n);
    let mut j: usize = i + 1;
    while j < v.len()
        invariant
            i < j <= v.len(),
            ms == manifest_views(v@),
            forall|k: int| i < k < j ==> ms[k].0 != ms[i as int].0,
        decreases v.len() - j,
    {
        if v[j].0 == v[i].0 {
            assert(ms[j as int].0 == ms[i as int].0);
            return false;
        }
        j = j + 1;
    }
    true
}

/// Whether a manifest hooks into `main`, before it (`before`) or after it.
fn manifest_hooks_into(m: &Manifest, main: &str, before: bool) -> (r: bool)
    ensures
        r == hooks_into(m@, main@, before),
{
    match m.hook(main) {
        Some(h) => if before {
            h.before().enabled()
        } else {
            h.after().enabled()
        },
        None => false,
    }
}

impl TaskLoader {
    /// The plugins among `manifests` that hook into the command `main`,
    /// before and after it, in the order of `manifests`; of several
    /// manifests with one name, the last is the plugin's manifest.
    pub fn new(main: &str, manifests: Vec<(String, Manifest)>) -> (r: Self)
        ensures
            r@.manifests == manifest_views(manifests@),
            r@.before_hooks == hooked_names(manifest_views(manifests@), main@, true),
            r@.after_hooks == hooked_names(manifest_views(manifests@), main@, false),
    {
        let ghost ms = manifest_views(manifests@);
        let ghost names = Seq::new(ms.len(), |i: int| ms[i].0);
        let ghost keep_before = Seq::new(ms.len(), |i: int| is_last(ms, i) && hooks_into(ms[i].1, main@, true));
        let ghost keep_after = Seq::new(ms.len(), |i: int| is_last(ms, i) && hooks_into(ms[i].1, main@, false));
        let mut before_hooks: Vec<String> = Vec::new();
        let mut after_hooks: Vec<String> = Vec::new();
        let mut i: usize = 0;
        assert(texts(before_hooks@) =~= Seq::empty());
        assert(texts(after_hooks@) =~= Seq::empty());
        assert(names.take(0) =~= Seq::empty());
        while i < manifests.len()
            invariant
                i <= manifests.len(),
                ms == manifest_views(manifests@),
                names == Seq::new(ms.len(), |i: int| ms[i].0),
                keep_before == Seq::new(ms.len(), |i: int| is_last(ms, i) && hooks_into(ms[i].1, main@, true)),
                keep_after == Seq::new(ms.len(), |i: int| is_last(ms, i) && hooks_into(ms[i].1, main@, false)),
                texts(before_hooks@) == select(names.take(i as int), keep_before.take(i as int)),
                texts(after_hooks@) == select(names.take(i as int), keep_after.take(i as int)),
            decreases manifests.len() - i,
        {
            proof {
                lemma_select_step(names, keep_before, i as int);
                lemma_select_step(names, keep_after, i as int);
            }
            let entry = &manifests[i];
            let last = is_last_entry(&manifests, i);
            if last && manifest_hooks_into(&entry.1, main, true) {
                let name = entry.0.clone();
                proof {
                    lemma_texts_push(before_hooks@, name);
                }
                before_hooks.push(name);
            }
            if last && manifest_hooks_into(&entry.1, main, false) {
                let name = entry.0.clone();
                proof {
                    lemma_texts_push(after_hooks@, name);
                }
                after_hooks.push(name);
            }
            i = i + 1;
        }
        assert(names.take(i as int) =~= names);
        assert(keep_before.take(i as int) =~= keep_before);
        assert(keep_after.take(i as int) =~= keep_after);
        TaskLoader { manifests, before_hooks, after_hooks }
    }

    /// The manifest of the plugin `name`: the last one so named.
    pub fn manifest(&self, name: &str) -> (r: Option<&Manifest>)
        ensures
            match (r, lookup(self@.manifests, name@)) {
                (Some(m), Some(v)) => m@ == v,
                (None, None) => true,
                _ => false,
            },
    {
        let key = name.to_owned();
        let ghost entries = self@.manifests;
        let mut i: usize = self.manifests.len();
        proof {
            lemma_lookup_ends(entries, name@);
        }
        while i > 0
            invariant
                i <= self.manifests.len(),
                key@ == name@,
                entries == self@.manifests,
                lookup(entries, name@) == lookup(entries.take(i as int), name@),
            decreases i,
        {
            proof {
                lemma_lookup_take(entries, name@, i as int);
            }
            if self.manifests[i - 1].0 == key {
                return Some(&self.manifests[i - 1].1);
            }
            i = i - 1;
        }
        None
    }

    /// The names of the plugins that run before the command.
    pub fn before_names(&self) -> (r: &Vec<String>)
        ensures
            texts(r@) == self@.before_hooks,
    {
        &self.before_hooks
    }

    /// The names of the plugins that run after the command.
    pub fn after_names(&self) -> (r: &Vec<String>)
        ensures
            texts(r@) == self@.after_hooks,
    {
        &self.after_hooks
    }

    /// The tasks to run before the command.
    pub fn before_hooks(&self, config: &Config) -> (r: Vec<HookTask>)
        ensures
            task_views(r@) == hook_tasks(self@.manifests, self@.before_hooks, config@),
    {
        self.tasks_for(&self.before_hooks, config)
    }

    /// The tasks to run after the command.
    pub fn after_hooks(&self, config: &Config) -> (r: Vec<HookTask>)
        ensures
            task_views(r@) == hook_tasks(self@.manifests, self@.after_hooks, config@),
    {
        self.tasks_for(&self.after_hooks, config)
    }

    /// The tasks for the named hooks, in order: each name that has a
    /// manifest, with the place of its binary.
    pub fn tasks_for(&self, hooks: &Vec<String>, config: &Config) -> (r: Vec<HookTask>)
        ensures
            task_views(r@) == hook_tasks(self@.manifests, texts(hooks@), config@),
    {
        let ghost hs = texts(hooks@);
        let ghost items = Seq::new(hs.len(), |i: int| HookTaskView { name: hs[i], binary: binary_path(config@, hs[i]) });
        let ghost keep = Seq::new(hs.len(), |i: int| lookup(self@.manifests, hs[i]) is Some);
        let mut tasks: Vec<HookTask> = Vec::new();
        let mut i: usize = 0;
        assert(task_views(tasks@) =~= Seq::empty());
        assert(items.take(0) =~= Seq::empty());
        while i < hooks.len()
            invariant
                i <= hooks.len(),
                hs == texts(hooks@),
                items == Seq::new(hs.len(), |i: int| HookTaskView { name: hs[i], binary: binary_path(config@, hs[i]) }),
                keep == Seq::new(hs.len(), |i: int| lookup(self@.manifests, hs[i]) is Some),
                task_views(tasks@) == select(items.take(i as int), keep.take(i as int)),
            decreases hooks.len() - i,
        {
            proof {
                lemma_select_step(items, keep, i as int);
            }
            let hook = &hooks[i];
            match self.manifest(hook.as_str()) {
                None => {},
                Some(_) => {
                    let binary = config.binary(hook.as_str());
                    let task = HookTask { name: hook.clone(), binary };
                    proof {
                        assert(task_views(tasks@.push(task)) =~= task_views(tasks@).push(task@));
                    }
                    tasks.push(task);
                },
            }
            i = i + 1;
        }
        assert(items.take(i as int) =~= items);
        assert(keep.take(i as int) =~= keep);
        tasks
    }
}

} // verus!
