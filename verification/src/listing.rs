//! Choosing plugin names from the entries of a directory.

use vstd::prelude::*;
use crate::paths::{extension, file_stem, path_extension, path_file_stem};
use crate::setup::{lemma_select_from, lemma_select_step, lemma_texts_push, select, texts};

verus! {

/// What is known of one directory entry: its path, whether it still exists
/// and whether it is a regular file.
pub struct DirEntry {
    pub path: String,
    pub exists: bool,
    pub is_file: bool,
}

/// The model of a `DirEntry`.
pub struct DirEntryView {
    pub path: Seq<char>,
    pub exists: bool,
    pub is_file: bool,
}

impl View for DirEntry {
    type V = DirEntryView;

    open spec fn view(&self) -> DirEntryView {
        DirEntryView { path: self.path@, exists: self.exists, is_file: self.is_file }
    }
}

/// The models of the entries read; `None` stands for an entry that could not be read.
pub open spec fn entry_views(v: Seq<Option<DirEntry>>) -> Seq<Option<DirEntryView>> {
    v.map_values(|e: Option<DirEntry>| match e {
        Some(d) => Some(d@),
        None => None,
    })
}

/// The plugin name an entry gives: the stem of an existing regular file
/// that has an extension other than `skip_ext`; nothing for any other entry.
pub open spec fn entry_name(e: Option<DirEntryView>, skip_ext: Seq<char>) -> Option<Seq<char>> {
    match e {
        None => None,
        Some(d) => if !d.exists || !d.is_file {
            None
        } else {
            match path_extension(d.path) {
                None => None,
                Some(x) => if x == skip_ext {
                    None
                } else {
                    path_file_stem(d.path)
                },
            }
        },
    }
}

/// The plugin names the entries give, in order.
pub open spec fn listed_names(entries: Seq<Option<DirEntryView>>, skip_ext: Seq<char>) -> Seq<Seq<char>> {
    select(
        Seq::new(entries.len(), |i: int| entry_name(entries[i], skip_ext)->0),
        Seq::new(entries.len(), |i: int| entry_name(entries[i], skip_ext) is Some),
    )
}

/// Every name listed is the name an entry gives: the stem of an existing
/// regular file among the entries, one whose extension is present and is
/// not the skipped one.
pub proof fn listed_names_are_files(entries: Seq<Option<DirEntryView>>, skip_ext: Seq<char>, k: int)
    requires
        0 <= k < listed_names(entries, skip_ext).len(),
    ensures
        exists|i: int|
            0 <= i < entries.len() && #[trigger] entry_name(entries[i], skip_ext) == Some(
                listed_names(entries, skip_ext)[k],
            ),
{
    let items = Seq::new(entries.len(), |i: int| entry_name(entries[i], skip_ext)->0);
    let keep = Seq::new(entries.len(), |i: int| entry_name(entries[i], skip_ext) is Some);
    lemma_select_from(items, keep, k);
    let i = choose|i: int| 0 <= i < items.len() && keep[i] && select(items, keep)[k] == items[i];
    assert(entry_name(entries[i], skip_ext) is Some);
}

/// The plugin name one entry gives, if any.
pub fn name_of_entry(entry: &Option<DirEntry>, skip_ext: &String) -> (r: Option<String>)
    ensures
        match (r, entry_name(
            match *entry {
                Some(d) => Some(d@),
                None => None,
            },
            skip_ext@,
        )) {
            (Some(s), Some(t)) => s@ == t,
            (None, None) => true,
            _ => false,
        },
{
    let d = match entry {
        Some(d) => d,
        None => {
            return None;
        },
    };
    if !d.exists {
        return None;
    }
    if !d.is_file {
        return None;
    }
    let ext = match extension(d.path.as_str()) {
        Some(ext) => ext,
        None => {
            return None;
        },
    };
    if ext == *skip_ext {
        return None;
    }
    file_stem(d.path.as_str())
}

/// The plugin names the entries give, in order: `entries` are the entries
/// of the directory as read, `None` where an entry could not be read.
pub fn list_names(entries: &Vec<Option<DirEntry>>, skip_ext: &String) -> (r: Vec<String>)
    ensures
        texts(r@) == listed_names(entry_views(entries@), skip_ext@),
{
    let ghost es = entry_views(entries@);
    let ghost items = Seq::new(es.len(), |i: int| entry_name(es[i], skip_ext@)->0);
    let ghost keep = Seq::new(es.len(), |i: int| entry_name(es[i], skip_ext@) is Some);
    let mut r: Vec<String> = Vec::new();
    let mut i: usize = 0;
    assert(texts(r@) =~= Seq::empty());
    assert(items.take(0) =~= Seq::empty());
    while i < entries.len()
        invariant
            i <= entries.len(),
            es == entry_views(entries@),
            items == Seq::new(es.len(), |i: int| entry_name(es[i], skip_ext@)->0),
            keep == Seq::new(es.len(), |i: int| entry_name(es[i], skip_ext@) is Some),
            texts(r@) == select(items.take(i as int), keep.take(i as int)),
        decreases entries.len() - i,
    {
        proof {
            lemma_select_step(items, keep, i as int);
        }
        match name_of_entry(&entries[i], skip_ext) {
            Some(name) => {
                proof {
                    lemma_texts_push(r@, name);
                }
                r.push(name);
            },
            None => {},
        }
        i = i + 1;
    }
    assert(items.take(i as int) =~= items);
    assert(keep.take(i as int) =~= keep);
    r
}

} // verus!
