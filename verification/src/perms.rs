//! Permission bits of `wasmtime_wasi::preview2::{DirPerms, FilePerms}`.
//!
//! A preopened directory carries two permission sets: what may be done to
//! the directory itself and what may be done to the files in it.  They are
//! carried here as the bits that `wasmtime_wasi` gives them.

use vstd::prelude::*;
use wasmtime_wasi::preview2::{DirPerms, FilePerms};

verus! {

/// `DirPerms::READ.bits()`: the crate declares the flag as `0b1`.
#[verifier::external_body]
fn dir_read() -> (bits: usize)
    ensures
        bits == 1,
{
    DirPerms::READ.bits()
}

/// `DirPerms::MUTATE.bits()`: the crate declares the flag as `0b10`.
#[verifier::external_body]
fn dir_mutate() -> (bits: usize)
    ensures
        bits == 2,
{
    DirPerms::MUTATE.bits()
}

/// `DirPerms::empty().bits()`: a bitflags set with no flag is `0`.
#[verifier::external_body]
fn dir_empty() -> (bits: usize)
    ensures
        bits == 0,
{
    DirPerms::empty().bits()
}

/// `DirPerms::all().bits()`: the union of `READ` (`0b1`) and `MUTATE` (`0b10`).
#[verifier::external_body]
fn dir_all() -> (bits: usize)
    ensures
        bits == 3,
{
    DirPerms::all().bits()
}

/// `FilePerms::READ.bits()`: the crate declares the flag as `0b1`.
#[verifier::external_body]
fn file_read() -> (bits: usize)
    ensures
        bits == 1,
{
    FilePerms::READ.bits()
}

/// `FilePerms::WRITE.bits()`: the crate declares the flag as `0b10`.
#[verifier::external_body]
fn file_write() -> (bits: usize)
    ensures
        bits == 2,
{
    FilePerms::WRITE.bits()
}

/// `FilePerms::empty().bits()`: a bitflags set with no flag is `0`.
#[verifier::external_body]
fn file_empty() -> (bits: usize)
    ensures
        bits == 0,
{
    FilePerms::empty().bits()
}

/// `FilePerms::all().bits()`: the union of `READ` (`0b1`) and `WRITE` (`0b10`).
#[verifier::external_body]
fn file_all() -> (bits: usize)
    ensures
        bits == 3,
{
    FilePerms::all().bits()
}

/// The permission bits of a set that reads when `read` holds and changes
/// when `change` holds: reading is the bit `0b1`, changing (`MUTATE` for a
/// directory, `WRITE` for a file) the bit `0b10`.
pub open spec fn perm_bits(read: bool, change: bool) -> nat {
    (if read { 1nat } else { 0nat }) + (if change { 2nat } else { 0nat })
}

/// Whether a permission set holds the reading bit.
pub open spec fn grants_read(bits: nat) -> bool {
    bits == 1 || bits == 3
}

/// Whether a permission set holds the changing bit.
pub open spec fn grants_change(bits: nat) -> bool {
    bits == 2 || bits == 3
}

/// Whether a permission set grants reading exactly when `read` holds,
/// changing exactly when `change` holds, and nothing else.
pub open spec fn grants_exactly(bits: nat, read: bool, change: bool) -> bool {
    bits < 4 && grants_read(bits) == read && grants_change(bits) == change
}

/// A permission set built from two flags grants reading exactly when the
/// first flag holds and changing exactly when the second holds.
pub proof fn perm_bits_grant_as_asked(read: bool, change: bool)
    ensures
        grants_read(perm_bits(read, change)) == read,
        grants_change(perm_bits(read, change)) == change,
{
}

proof fn lemma_union_bits()
    ensures
        1usize | 2usize == 3usize,
        0usize | 0usize == 0usize,
        1usize | 0usize == 1usize,
        0usize | 2usize == 2usize,
{
    assert(1usize | 2usize == 3usize) by (bit_vector);
    assert(0usize | 0usize == 0usize) by (bit_vector);
    assert(1usize | 0usize == 1usize) by (bit_vector);
    assert(0usize | 2usize == 2usize) by (bit_vector);
}

/// `DirPerms` for a directory that may be read when `read` holds and
/// changed when `mutate` holds, chosen by cases on the two flags.
pub fn dir_perms(read: bool, mutate: bool) -> (bits: usize)
    ensures
        bits == perm_bits(read, mutate),
{
    proof {
        lemma_union_bits();
    }
    match (read, mutate) {
        (true, true) => dir_read() | dir_mutate(),
        (true, false) => dir_read(),
        (false, true) => dir_mutate(),
        (false, false) => dir_empty(),
    }
}

/// `DirPerms` built as the union of `READ` or nothing with `MUTATE` or nothing.
pub fn dir_perms_union(read: bool, mutate: bool) -> (bits: usize)
    ensures
        bits == perm_bits(read, mutate),
{
    proof {
        lemma_union_bits();
    }
    let r = if read { dir_read() } else { dir_empty() };
    let m = if mutate { dir_mutate() } else { dir_empty() };
    r | m
}

/// `FilePerms` for files that may be read when `read` holds and written
/// when `write` holds, chosen by cases on the two flags.
pub fn file_perms(read: bool, write: bool) -> (bits: usize)
    ensures
        bits == perm_bits(read, write),
{
    proof {
        lemma_union_bits();
    }
    match (read, write) {
        (true, true) => file_read() | file_write(),
        (true, false) => file_read(),
        (false, true) => file_write(),
        (false, false) => file_empty(),
    }
}

/// `FilePerms` built as the union of `READ` or nothing with `WRITE` or nothing.
pub fn file_perms_union(read: bool, write: bool) -> (bits: usize)
    ensures
        bits == perm_bits(read, write),
{
    proof {
        lemma_union_bits();
    }
    let r = if read { file_read() } else { file_empty() };
    let w = if write { file_write() } else { file_empty() };
    r | w
}

/// Every directory permission: `DirPerms::all()`.
pub fn dir_perms_all() -> (bits: usize)
    ensures
        bits == perm_bits(true, true),
{
    dir_all()
}

/// Every file permission: `FilePerms::all()`.
pub fn file_perms_all() -> (bits: usize)
    ensures
        bits == perm_bits(true, true),
{
    file_all()
}

/// No file permission: `FilePerms::empty()`.
pub fn file_perms_none() -> (bits: usize)
    ensures
        bits == perm_bits(false, false),
{
    file_empty()
}

/// No directory permission: `DirPerms::empty()`.
pub fn dir_perms_none() -> (bits: usize)
    ensures
        bits == perm_bits(false, false),
{
    dir_empty()
}

} // verus!
