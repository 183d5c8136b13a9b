//! The SQLite version in use, and SQLite's case-insensitive string comparison.
use vstd::prelude::*;
use std::cmp::Ordering;
use crate::engine;
use vstd::string::StringSliceAdditionalSpecFns;
use crate::nocase::{
    fold, folded_order_from, lemma_signs_antisymmetric, lemma_signs_ignore_case,
    lemma_signs_reflexive, nocase_order_for_version, nocase_sign, NOCASE_VERSION,
};

verus! {

/// The version of SQLite.
pub struct SqliteVersion;

impl SqliteVersion {
    /// Returns the numeric version of SQLite, `major * 1000000 + minor * 1000 + patch`.
    pub fn as_i32(&self) -> (v: i32)
        ensures
            v == engine::LINKED_VERSION,
    {
        engine::version_number()
    }

    /// Returns the human-readable version of SQLite, such as `"3.8.2"`.
    pub fn as_str(&self) -> (s: &'static str) {
        engine::version_text()
    }
}

/// The ordering that a sign stands for.
pub open spec fn ordering_of(s: int) -> Ordering {
    if s < 0 { Ordering::Less } else if s > 0 { Ordering::Greater } else { Ordering::Equal }
}

/// The ordering of two lengths: the shorter string first.
pub open spec fn length_order(a: Seq<u8>, b: Seq<u8>) -> Ordering {
    ordering_of(a.len() - b.len())
}

/// What `sqlite3_stricmp` gives on SQLite of the given version, as SQLite's NOCASE collation
/// orders: the comparison of `sqlite3_strnicmp` over the common length and, where that finds
/// no difference, the shorter string first; on older versions the emulation that compares
/// folded bytes and then lengths.
pub open spec fn stricmp_spec(version: i32, a: Seq<u8>, b: Seq<u8>) -> Ordering {
    if version >= NOCASE_VERSION {
        if nocase_sign(a, b) != 0 {
            ordering_of(nocase_sign(a, b))
        } else {
            length_order(a, b)
        }
    } else {
        ordering_of(folded_order_from(a, b, 0))
    }
}

fn sign_to_ordering(s: i32) -> (o: Ordering)
    ensures
        s < 0 ==> o == Ordering::Less,
        s > 0 ==> o == Ordering::Greater,
        s == 0 ==> o == Ordering::Equal,
{
    if s < 0 {
        Ordering::Less
    } else if s > 0 {
        Ordering::Greater
    } else {
        Ordering::Equal
    }
}

/// The case-insensitive comparison of SQLite of the given version.
pub fn stricmp_for_version(version: i32, a: &str, b: &str) -> (o: Ordering)
    ensures
        o == stricmp_spec(version, a.spec_bytes(), b.spec_bytes()),
{
    let ab = a.as_bytes();
    let bb = b.as_bytes();
    let s = nocase_order_for_version(version, ab, bb);
    if s == 0 && version >= NOCASE_VERSION {
        if ab.len() < bb.len() {
            Ordering::Less
        } else if ab.len() > bb.len() {
            Ordering::Greater
        } else {
            Ordering::Equal
        }
    } else {
        sign_to_ordering(s)
    }
}

/// Perform a case-insensitive comparison using the same collation that SQLite uses.
pub fn sqlite3_stricmp(a: &str, b: &str) -> (o: Ordering)
    ensures
        exists|v: i32| o == stricmp_spec(v, a.spec_bytes(), b.spec_bytes()),
{
    let version = engine::version_number();
    stricmp_for_version(version, a, b)
}

/// Swapping the two strings reverses the order that `sqlite3_stricmp` gives, on every
/// version of SQLite.
pub proof fn lemma_stricmp_antisymmetric(version: i32, a: Seq<u8>, b: Seq<u8>)
    ensures
        stricmp_spec(version, a, b) == Ordering::Less <==> stricmp_spec(version, b, a)
            == Ordering::Greater,
        stricmp_spec(version, a, b) == Ordering::Equal <==> stricmp_spec(version, b, a)
            == Ordering::Equal,
{
    lemma_signs_antisymmetric(a, b);
}

/// Every string compares equal to itself.
pub proof fn lemma_stricmp_reflexive(version: i32, a: Seq<u8>)
    ensures
        stricmp_spec(version, a, a) == Ordering::Equal,
{
    lemma_signs_reflexive(a);
}

/// Strings of the same length that differ only in the case of ASCII letters compare equal.
pub proof fn lemma_stricmp_ignores_case(version: i32, a: Seq<u8>, b: Seq<u8>)
    requires
        a.len() == b.len(),
        forall|k: int| 0 <= k < a.len() ==> fold(#[trigger] a[k]) == fold(b[k]),
    ensures
        stricmp_spec(version, a, b) == Ordering::Equal,
{
    lemma_signs_ignore_case(a, b);
}

} // verus!
