//! The order in which keys are stored, and pages of keys.
use vstd::prelude::*;
use vstd::utf8::encode_utf8;

verus! {

/// `left` and `right` agree before position `at`, where `left` ends first or has the smaller byte.
pub open spec fn smaller_at(left: Seq<u8>, right: Seq<u8>, at: int) -> bool {
    &&& 0 <= at <= left.len()
    &&& at < right.len()
    &&& forall|i: int| 0 <= i < at ==> left[i] == right[i]
    &&& at == left.len() || left[at] < right[at]
}

/// The order of byte strings: by the first byte that differs, a shorter string before a longer one
/// that it starts.
pub open spec fn bytes_before(left: Seq<u8>, right: Seq<u8>) -> bool {
    exists|at: int| smaller_at(left, right, at)
}

/// The order of texts: that of their bytes.
pub open spec fn text_before(left: Seq<char>, right: Seq<char>) -> bool {
    bytes_before(encode_utf8(left), encode_utf8(right))
}

/// A byte string does not come before itself.
pub proof fn lemma_bytes_irreflexive(bytes: Seq<u8>)
    ensures
        !bytes_before(bytes, bytes),
{
}

/// The order of byte strings is transitive.
pub proof fn lemma_bytes_transitive(a: Seq<u8>, b: Seq<u8>, c: Seq<u8>)
    requires
        bytes_before(a, b),
        bytes_before(b, c),
    ensures
        bytes_before(a, c),
{
    let m = choose|at: int| smaller_at(a, b, at);
    let n = choose|at: int| smaller_at(b, c, at);
    if m <= n {
        assert(smaller_at(a, c, m));
    } else {
        assert(smaller_at(a, c, n));
    }
}

/// Of two byte strings that agree up to `from` and differ, one comes before the other.
proof fn lemma_bytes_total_from(a: Seq<u8>, b: Seq<u8>, from: int)
    requires
        0 <= from <= a.len(),
        from <= b.len(),
        forall|i: int| 0 <= i < from ==> a[i] == b[i],
    ensures
        a == b || bytes_before(a, b) || bytes_before(b, a),
    decreases a.len() - from,
{
    if from == a.len() && from == b.len() {
        assert(a =~= b);
    } else if from == a.len() {
        assert(smaller_at(a, b, from));
    } else if from == b.len() {
        assert(smaller_at(b, a, from));
    } else if a[from] < b[from] {
        assert(smaller_at(a, b, from));
    } else if b[from] < a[from] {
        assert(smaller_at(b, a, from));
    } else {
        lemma_bytes_total_from(a, b, from + 1);
    }
}

/// Of two different byte strings one comes before the other.
pub proof fn lemma_bytes_total(a: Seq<u8>, b: Seq<u8>)
    ensures
        a == b || bytes_before(a, b) || bytes_before(b, a),
{
    lemma_bytes_total_from(a, b, 0);
}

/// Texts with the same bytes are the same.
pub proof fn lemma_same_bytes(a: Seq<char>, b: Seq<char>)
    requires
        encode_utf8(a) == encode_utf8(b),
    ensures
        a == b,
{
    broadcast use vstd::utf8::encode_utf8_decode_utf8;

    assert(vstd::utf8::decode_utf8(encode_utf8(a)) == a);
    assert(vstd::utf8::decode_utf8(encode_utf8(b)) == b);
}

/// Whether one text comes before another.
pub fn is_text_before(left: &String, right: &String) -> (before: bool)
    ensures
        before == text_before(left@, right@),
{
    let a = left.as_str().as_bytes();
    let b = right.as_str().as_bytes();
    let mut i: usize = 0;
    while i < a.len() && i < b.len() && a[i] == b[i]
        invariant
            i <= a.len(),
            i <= b.len(),
            forall|j: int| 0 <= j < i ==> a[j] == b[j],
        decreases a.len() - i,
    {
        i += 1;
    }
    let before = i < b.len() && (i == a.len() || a[i] < b[i]);
    proof {
        if before {
            assert(smaller_at(a@, b@, i as int));
        } else {
            assert forall|at: int| !smaller_at(a@, b@, at) by {
                if smaller_at(a@, b@, at) {
                    if at < i {
                        assert(a[at] == b[at]);
                    } else if at > i {
                        assert(a@[i as int] == b@[i as int]);
                    }
                }
            }
        }
    }
    before
}

/// `page` holds the first keys that `admits` lets through, in the order `before`: at most `limit`
/// of them, none left out before the last, and all of them if there is room.
pub open spec fn is_page<K>(
    keys: Set<K>,
    before: spec_fn(K, K) -> bool,
    admits: spec_fn(K) -> bool,
    limit: nat,
    page: Seq<K>,
) -> bool {
    &&& page.len() <= limit
    &&& forall|i: int, j: int| 0 <= i < j < page.len() ==> before(page[i], page[j])
    &&& forall|i: int| 0 <= i < page.len() ==> keys.contains(page[i]) && admits(page[i])
    &&& forall|k: K| #[trigger]
        keys.contains(k) && admits(k) && !page.contains(k) ==> page.len() == limit && (forall|i: int|
            0 <= i < page.len() ==> before(#[trigger] page[i], k))
}

} // verus!
