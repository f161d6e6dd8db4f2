//! Path text computed by `std::path`.
//!
//! Paths are carried as UTF-8 text.  Joining, extension handling and
//! splitting a file name are done by `std::path::Path` (on Unix, where `/`
//! is the only separator).  What joining gives is stated; the others are
//! named here and not restated.

use std::path::Path;
use vstd::prelude::*;
use vstd::string::StrSliceExecFns;

verus! {

/// The text of `Path::new(base).join(part)` on Unix: an absolute `part`
/// (one that starts with `/`) replaces `base`; otherwise `part` follows
/// `base`, with a `/` between them when `base` is not empty and does not
/// already end in one.
pub open spec fn joined_path(base: Seq<char>, part: Seq<char>) -> Seq<char> {
    if part.len() > 0 && part[0] == '/' {
        part
    } else if base.len() > 0 && base.last() != '/' {
        base + seq!['/'] + part
    } else {
        base + part
    }
}

/// Whether a text holds the path separator `/`.
pub open spec fn has_separator(s: Seq<char>) -> bool {
    s.contains('/')
}

/// The text of `Path::new(path).with_extension(ext)`.
pub uninterp spec fn path_with_extension(path: Seq<char>, ext: Seq<char>) -> Seq<char>;

/// The text of `Path::new(path).extension()`, when there is one.
pub uninterp spec fn path_extension(path: Seq<char>) -> Option<Seq<char>>;

/// The text of `Path::new(path).file_stem()`, when there is one.
pub uninterp spec fn path_file_stem(path: Seq<char>) -> Option<Seq<char>>;

/// Calls `std::path::Path::join`; the result, rendered as text, is
/// `joined_path` of the two arguments: `PathBuf::push` replaces the path
/// with an absolute one and otherwise adds a separator only where the path
/// does not end in one.  Both arguments are UTF-8, so the rendering loses
/// nothing.
#[verifier::external_body]
pub(crate) fn join(base: &str, part: &str) -> (r: String)
    ensures
        r@ == joined_path(base@, part@),
{
    Path::new(base).join(part).to_string_lossy().into_owned()
}

/// Calls `std::path::Path::with_extension`; the result, rendered as text,
/// is `path_with_extension` of the two arguments.  `PathBuf::set_extension`
/// panics on an extension that holds a separator, so such an extension is
/// not admitted.
#[verifier::external_body]
pub(crate) fn with_extension(path: &str, ext: &str) -> (r: String)
    requires
        !has_separator(ext@),
    ensures
        r@ == path_with_extension(path@, ext@),
{
    Path::new(path).with_extension(ext).to_string_lossy().into_owned()
}

/// Calls `std::path::Path::extension`; the result, rendered as text, is
/// `path_extension` of the argument.
#[verifier::external_body]
pub(crate) fn extension(path: &str) -> (r: Option<String>)
    ensures
        r matches Some(e) ==> path_extension(path@) == Some(e@),
        r is None ==> path_extension(path@) is None,
{
    match Path::new(path).extension() {
        Some(e) => Some(e.to_string_lossy().into_owned()),
        None => None,
    }
}

/// Calls `std::path::Path::file_stem`; the result, rendered as text, is
/// `path_file_stem` of the argument.
#[verifier::external_body]
pub(crate) fn file_stem(path: &str) -> (r: Option<String>)
    ensures
        r matches Some(s) ==> path_file_stem(path@) == Some(s@),
        r is None ==> path_file_stem(path@) is None,
{
    match Path::new(path).file_stem() {
        Some(s) => Some(s.to_string_lossy().into_owned()),
        None => None,
    }
}

/// Whether `s` holds the path separator `/`.
pub fn contains_separator(s: &str) -> (r: bool)
    ensures
        r == has_separator(s@),
{
    let n = s.unicode_len();
    let mut i: usize = 0;
    while i < n
        invariant
            i <= n,
            n == s@.len(),
            forall|j: int| 0 <= j < i ==> s@[j] != '/',
        decreases n - i,
    {
        if s.get_char(i) == '/' {
            assert(s@[i as int] == '/');
            return true;
        }
        i = i + 1;
    }
    false
}

/// The extensions `toml` and `wasm` hold no separator.
pub proof fn lemma_plain_extensions()
    ensures
        !has_separator("toml"@),
        !has_separator("wasm"@),
{
    reveal_strlit("toml");
    reveal_strlit("wasm");
    assert("toml"@ =~= seq!['t', 'o', 'm', 'l']);
    assert("wasm"@ =~= seq!['w', 'a', 's', 'm']);
}

} // verus!
