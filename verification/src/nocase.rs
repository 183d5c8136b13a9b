//! SQLite's folding of ASCII letters and the byte scans of its case-insensitive comparison.
use vstd::prelude::*;

verus! {

/// SQLite's folding of a byte to lower case: only `A` to `Z` change.
pub open spec fn fold(c: u8) -> int {
    if 65 <= c <= 90 { c + 32 } else { c as int }
}

/// What `sqlite3_strnicmp(a, b, n)` returns, with the scan started at index `i`: the
/// difference of the folded bytes at the first index below `n` where `a` has a NUL byte or
/// the folded bytes differ, and zero when there is none.
pub open spec fn nocase_scan_from(a: Seq<u8>, b: Seq<u8>, n: int, i: int) -> int
    decreases n - i,
{
    if i >= n {
        0
    } else if a[i] == 0 || fold(a[i]) != fold(b[i]) {
        fold(a[i]) - fold(b[i])
    } else {
        nocase_scan_from(a, b, n, i + 1)
    }
}

/// The smaller of two lengths.
pub open spec fn min_len(a: Seq<u8>, b: Seq<u8>) -> int {
    if a.len() <= b.len() { a.len() as int } else { b.len() as int }
}

/// The comparison that SQLite's `sqlite3_strnicmp` makes over the common length of `a` and
/// `b`, as a sign: negative, zero or positive.
pub open spec fn nocase_sign(a: Seq<u8>, b: Seq<u8>) -> int {
    nocase_scan_from(a, b, min_len(a, b), 0)
}

/// Lexicographic comparison of the folded bytes from index `i`, then by length.
pub open spec fn folded_order_from(a: Seq<u8>, b: Seq<u8>, i: int) -> int
    decreases a.len() + b.len() - 2 * i,
{
    if i >= a.len() || i >= b.len() {
        if a.len() < b.len() { -1 } else if a.len() > b.len() { 1 } else { 0 }
    } else if fold(a[i]) != fold(b[i]) {
        fold(a[i]) - fold(b[i])
    } else {
        folded_order_from(a, b, i + 1)
    }
}

/// The version from which SQLite offers `sqlite3_strnicmp`.
pub const NOCASE_VERSION: i32 = 3006017;

fn fold_byte(c: u8) -> (r: u8)
    ensures
        r as int == fold(c),
{
    if 65 <= c && c <= 90 { c + 32 } else { c }
}

fn diff(x: u8, y: u8) -> (r: i32)
    ensures
        r as int == x as int - y as int,
{
    x as i32 - y as i32
}

pub(crate) fn nocase_bytes(a: &[u8], b: &[u8]) -> (r: i32)
    ensures
        r as int == nocase_sign(a@, b@),
{
    let n: usize = if a.len() <= b.len() { a.len() } else { b.len() };
    let mut i: usize = 0;
    while i < n
        invariant
            n as int == min_len(a@, b@),
            n <= a@.len(),
            n <= b@.len(),
            i <= n,
            nocase_scan_from(a@, b@, n as int, 0) == nocase_scan_from(a@, b@, n as int, i as int),
        decreases n - i,
    {
        let x = fold_byte(a[i]);
        let y = fold_byte(b[i]);
        if a[i] == 0 || x != y {
            return diff(x, y);
        }
        i = i + 1;
    }
    0
}

pub(crate) fn folded_order_bytes(a: &[u8], b: &[u8]) -> (r: i32)
    ensures
        r as int == folded_order_from(a@, b@, 0),
{
    let mut i: usize = 0;
    while i < a.len() && i < b.len()
        invariant
            i <= a@.len(),
            i <= b@.len(),
            folded_order_from(a@, b@, 0) == folded_order_from(a@, b@, i as int),
        decreases a@.len() - i,
    {
        let x = fold_byte(a[i]);
        let y = fold_byte(b[i]);
        if x != y {
            return diff(x, y);
        }
        i = i + 1;
    }
    if a.len() < b.len() {
        -1
    } else if a.len() > b.len() {
        1
    } else {
        0
    }
}

pub(crate) fn nocase_order_for_version(version: i32, a: &[u8], b: &[u8]) -> (r: i32)
    ensures
        version >= NOCASE_VERSION ==> r as int == nocase_sign(a@, b@),
        version < NOCASE_VERSION ==> r as int == folded_order_from(a@, b@, 0),
{
    if version >= NOCASE_VERSION {
        nocase_bytes(a, b)
    } else {
        folded_order_bytes(a, b)
    }
}

proof fn lemma_fold_zero(c: u8)
    ensures
        fold(c) == 0 <==> c == 0,
{
}

/// The scan of `a` against `b` is the negation of the scan of `b` against `a`.
pub proof fn lemma_nocase_scan_antisymmetric(a: Seq<u8>, b: Seq<u8>, n: int, i: int)
    requires
        n <= a.len(),
        n <= b.len(),
        0 <= i,
    ensures
        nocase_scan_from(a, b, n, i) == -nocase_scan_from(b, a, n, i),
    decreases n - i,
{
    if i < n {
        lemma_fold_zero(a[i]);
        lemma_fold_zero(b[i]);
        lemma_nocase_scan_antisymmetric(a, b, n, i + 1);
    }
}

/// A byte string scans equal to itself.
pub proof fn lemma_nocase_scan_reflexive(a: Seq<u8>, n: int, i: int)
    requires
        n <= a.len(),
        0 <= i,
    ensures
        nocase_scan_from(a, a, n, i) == 0,
    decreases n - i,
{
    if i < n {
        lemma_nocase_scan_reflexive(a, n, i + 1);
    }
}

/// The folded order of `a` against `b` is the negation of that of `b` against `a`.
pub proof fn lemma_folded_order_antisymmetric(a: Seq<u8>, b: Seq<u8>, i: int)
    requires
        0 <= i,
    ensures
        folded_order_from(a, b, i) == -folded_order_from(b, a, i),
    decreases a.len() + b.len() - 2 * i,
{
    if i < a.len() && i < b.len() {
        lemma_folded_order_antisymmetric(a, b, i + 1);
    }
}

/// A byte string is equal to itself in the folded order.
pub proof fn lemma_folded_order_reflexive(a: Seq<u8>, i: int)
    requires
        0 <= i,
    ensures
        folded_order_from(a, a, i) == 0,
    decreases a.len() - i,
{
    if i < a.len() {
        lemma_folded_order_reflexive(a, i + 1);
    }
}

/// Byte strings that agree once folded compare equal in the folded order.
pub proof fn lemma_folded_order_ignores_case(a: Seq<u8>, b: Seq<u8>, i: int)
    requires
        0 <= i,
        a.len() == b.len(),
        forall|k: int| 0 <= k < a.len() ==> fold(#[trigger] a[k]) == fold(b[k]),
    ensures
        folded_order_from(a, b, i) == 0,
    decreases a.len() - i,
{
    if i < a.len() {
        lemma_folded_order_ignores_case(a, b, i + 1);
    }
}

/// Byte strings without NUL bytes that agree once folded scan equal.
pub proof fn lemma_nocase_scan_ignores_case(a: Seq<u8>, b: Seq<u8>, n: int, i: int)
    requires
        0 <= i,
        n <= a.len(),
        n <= b.len(),
        forall|k: int| 0 <= k < n ==> fold(#[trigger] a[k]) == fold(b[k]),
    ensures
        nocase_scan_from(a, b, n, i) == 0,
    decreases n - i,
{
    if i < n {
        lemma_nocase_scan_ignores_case(a, b, n, i + 1);
    }
}

/// Both comparisons are antisymmetric: swapping the strings negates the sign.
pub proof fn lemma_signs_antisymmetric(a: Seq<u8>, b: Seq<u8>)
    ensures
        nocase_sign(a, b) == -nocase_sign(b, a),
        folded_order_from(a, b, 0) == -folded_order_from(b, a, 0),
{
    let n = if a.len() <= b.len() { a.len() as int } else { b.len() as int };
    lemma_nocase_scan_antisymmetric(a, b, n, 0);
    lemma_folded_order_antisymmetric(a, b, 0);
}

/// Both comparisons give zero for a string against itself.
pub proof fn lemma_signs_reflexive(a: Seq<u8>)
    ensures
        nocase_sign(a, a) == 0,
        folded_order_from(a, a, 0) == 0,
{
    lemma_nocase_scan_reflexive(a, a.len() as int, 0);
    lemma_folded_order_reflexive(a, 0);
}

/// Both comparisons give zero for strings of one length that agree once folded.
pub proof fn lemma_signs_ignore_case(a: Seq<u8>, b: Seq<u8>)
    requires
        a.len() == b.len(),
        forall|k: int| 0 <= k < a.len() ==> fold(#[trigger] a[k]) == fold(b[k]),
    ensures
        nocase_sign(a, b) == 0,
        folded_order_from(a, b, 0) == 0,
{
    lemma_nocase_scan_ignores_case(a, b, a.len() as int, 0);
    lemma_folded_order_ignores_case(a, b, 0);
}

} // verus!
