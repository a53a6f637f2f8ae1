//! Names as keys: equality and the byte-wise lexicographic order of their
//! UTF-8 encodings, which is the order in which the catalogue lists its
//! entries.

use vstd::prelude::*;
use vstd::utf8::encode_utf8;
use vstd::utf8::encode_utf8_decode_utf8;

verus! {

/// How one name stands to another in the catalogue's order.
#[derive(Clone, Copy, Debug, PartialEq, Eq, Structural)]
pub enum Placement {
    Before,
    Same,
    After,
}

/// First index from `i` on at which `a` and `b` differ or one of them ends.
pub open spec fn mismatch(a: Seq<u8>, b: Seq<u8>, i: int) -> int
    decreases a.len() - i,
{
    if i < 0 || i >= a.len() || i >= b.len() || a[i] != b[i] {
        i
    } else {
        mismatch(a, b, i + 1)
    }
}

/// `a` comes strictly before `b`: at the first difference `a` has ended, or
/// holds the smaller byte.
pub open spec fn bytes_before(a: Seq<u8>, b: Seq<u8>) -> bool {
    let k = mismatch(a, b, 0);
    k < b.len() && (k == a.len() || a[k] < b[k])
}

/// The catalogue's order on names.
pub open spec fn name_before(a: Seq<char>, b: Seq<char>) -> bool {
    bytes_before(encode_utf8(a), encode_utf8(b))
}

/// The placement of `a` relative to `b`.
pub open spec fn placement(a: Seq<char>, b: Seq<char>) -> Placement {
    if name_before(a, b) {
        Placement::Before
    } else if a == b {
        Placement::Same
    } else {
        Placement::After
    }
}

/// `mismatch` returns an index up to which the two agree and at which they
/// stop agreeing.
pub proof fn lemma_mismatch(a: Seq<u8>, b: Seq<u8>, i: int)
    requires
        0 <= i <= a.len(),
        i <= b.len(),
    ensures
        i <= mismatch(a, b, i) <= a.len(),
        mismatch(a, b, i) <= b.len(),
        forall|j: int| i <= j < mismatch(a, b, i) ==> a[j] == b[j],
        mismatch(a, b, i) < a.len() && mismatch(a, b, i) < b.len() ==> a[mismatch(a, b, i)]
            != b[mismatch(a, b, i)],
    decreases a.len() - i,
{
    if i >= a.len() || i >= b.len() || a[i] != b[i] {
    } else {
        lemma_mismatch(a, b, i + 1);
    }
}

/// An index with the properties of the first mismatch is the first mismatch.
pub proof fn lemma_mismatch_is(a: Seq<u8>, b: Seq<u8>, i: int, k: int)
    requires
        0 <= i <= k <= a.len(),
        k <= b.len(),
        forall|j: int| i <= j < k ==> a[j] == b[j],
        k < a.len() && k < b.len() ==> a[k] != b[k],
    ensures
        mismatch(a, b, i) == k,
    decreases k - i,
{
    if i < k {
        lemma_mismatch_is(a, b, i + 1, k);
    }
}

/// Of two byte strings either one comes before the other or they are equal,
/// and only one of the three holds.
pub proof fn lemma_bytes_trichotomy(a: Seq<u8>, b: Seq<u8>)
    ensures
        bytes_before(a, b) || bytes_before(b, a) || a == b,
        !(bytes_before(a, b) && bytes_before(b, a)),
        !(bytes_before(a, b) && a == b),
{
    lemma_mismatch(a, b, 0);
    let k = mismatch(a, b, 0);
    lemma_mismatch_is(b, a, 0, k);
    if k == a.len() && k == b.len() {
        assert(a =~= b);
    }
}

/// What comes before something that comes before a third comes before the
/// third.
pub proof fn lemma_bytes_transitive(a: Seq<u8>, b: Seq<u8>, c: Seq<u8>)
    requires
        bytes_before(a, b),
        bytes_before(b, c),
    ensures
        bytes_before(a, c),
{
    lemma_mismatch(a, b, 0);
    lemma_mismatch(b, c, 0);
    let k1 = mismatch(a, b, 0);
    let k2 = mismatch(b, c, 0);
    let k = if k1 <= k2 { k1 } else { k2 };
    lemma_mismatch_is(a, c, 0, k);
}

/// The order on names is a strict total order.
pub proof fn lemma_name_trichotomy(a: Seq<char>, b: Seq<char>)
    ensures
        name_before(a, b) || name_before(b, a) || a == b,
        !(name_before(a, b) && name_before(b, a)),
        !(name_before(a, b) && a == b),
{
    lemma_bytes_trichotomy(encode_utf8(a), encode_utf8(b));
    if encode_utf8(a) == encode_utf8(b) {
        encode_utf8_decode_utf8(a);
        encode_utf8_decode_utf8(b);
    }
}

/// The order on names is transitive.
pub proof fn lemma_name_transitive(a: Seq<char>, b: Seq<char>, c: Seq<char>)
    requires
        name_before(a, b),
        name_before(b, c),
    ensures
        name_before(a, c),
{
    lemma_bytes_transitive(encode_utf8(a), encode_utf8(b), encode_utf8(c));
}

/// Compares two names in the catalogue's order.
pub fn compare_names(a: &str, b: &str) -> (r: Placement)
    ensures
        r == placement(a@, b@),
{
    let x = a.as_bytes();
    let y = b.as_bytes();
    let mut i: usize = 0;
    while i < x.len() && i < y.len() && x[i] == y[i]
        invariant
            i <= x@.len(),
            i <= y@.len(),
            mismatch(x@, y@, 0) == mismatch(x@, y@, i as int),
        decreases x@.len() - i,
    {
        i += 1;
    }
    proof {
        assert(mismatch(x@, y@, 0) == i);
        lemma_mismatch(x@, y@, 0);
        lemma_name_trichotomy(a@, b@);
        if i == x@.len() && i == y@.len() {
            assert(x@ =~= y@);
            encode_utf8_decode_utf8(a@);
            encode_utf8_decode_utf8(b@);
        }
    }
    if i < y.len() && (i == x.len() || x[i] < y[i]) {
        Placement::Before
    } else if i == x.len() && i == y.len() {
        Placement::Same
    } else {
        Placement::After
    }
}

/// Whether two names are the same text.
pub fn same_name(a: &str, b: &str) -> (r: bool)
    ensures
        r == (a@ == b@),
{
    match compare_names(a, b) {
        Placement::Same => true,
        _ => false,
    }
}

} // verus!
