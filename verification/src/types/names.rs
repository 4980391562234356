//! The order of names: that of their bytes in UTF-8, first byte first, a name coming
//! before every longer name that it begins. Maps that are kept by name are walked in this
//! order.

use vstd::prelude::*;
use vstd::utf8::{decode_utf8, encode_utf8, encode_utf8_decode_utf8};

verus! {

/// Whether `a` and `b` agree before index `i` and `a` comes first by what is at `i`: there
/// `a` ends and `b` goes on, or `a` has the smaller byte.
pub open spec fn bytes_part_at(a: Seq<u8>, b: Seq<u8>, i: int) -> bool {
    &&& 0 <= i <= a.len()
    &&& i <= b.len()
    &&& forall|j: int| 0 <= j < i ==> a[j] == b[j]
    &&& (i == a.len() && i < b.len()) || (i < a.len() && i < b.len() && a[i] < b[i])
}

/// Whether `a` comes before `b` in the order of their bytes.
pub open spec fn bytes_before(a: Seq<u8>, b: Seq<u8>) -> bool {
    exists|i: int| bytes_part_at(a, b, i)
}

/// Whether the name `a` comes before the name `b`.
pub open spec fn name_before(a: Seq<char>, b: Seq<char>) -> bool {
    bytes_before(encode_utf8(a), encode_utf8(b))
}

/// The order of bytes is transitive.
pub proof fn lemma_bytes_order_transitive(a: Seq<u8>, b: Seq<u8>, c: Seq<u8>)
    requires
        bytes_before(a, b),
        bytes_before(b, c),
    ensures
        bytes_before(a, c),
{
    let i = choose|i: int| bytes_part_at(a, b, i);
    let k = choose|k: int| bytes_part_at(b, c, k);
    let m = if i < k {
        i
    } else {
        k
    };
    assert(bytes_part_at(a, c, m));
}

/// Of two lists of bytes that differ, one comes before the other.
pub proof fn lemma_bytes_order_total(a: Seq<u8>, b: Seq<u8>, n: int)
    requires
        0 <= n <= a.len(),
        n <= b.len(),
        forall|j: int| 0 <= j < n ==> a[j] == b[j],
    ensures
        a == b || bytes_before(a, b) || bytes_before(b, a),
    decreases a.len() - n,
{
    if n == a.len() || n == b.len() {
        if a.len() == b.len() {
            assert(a =~= b);
        } else if a.len() < b.len() {
            assert(bytes_part_at(a, b, n));
        } else {
            assert(bytes_part_at(b, a, n));
        }
    } else if a[n] < b[n] {
        assert(bytes_part_at(a, b, n));
    } else if b[n] < a[n] {
        assert(bytes_part_at(b, a, n));
    } else {
        lemma_bytes_order_total(a, b, n + 1);
    }
}

/// No name comes before itself, and of two names neither of which comes before the other
/// there is only one: the order of names is a strict total order.
pub proof fn lemma_name_order_total(a: Seq<char>, b: Seq<char>)
    ensures
        !name_before(a, a),
        a == b || name_before(a, b) || name_before(b, a),
        !(name_before(a, b) && name_before(b, a)),
{
    let x = encode_utf8(a);
    let y = encode_utf8(b);
    lemma_bytes_order_total(x, y, 0);
    if x == y {
        encode_utf8_decode_utf8(a);
        encode_utf8_decode_utf8(b);
        assert(decode_utf8(x) == a);
        assert(decode_utf8(y) == b);
    }
    if name_before(a, b) && name_before(b, a) {
        lemma_bytes_order_transitive(x, y, x);
    }
}

/// The order of names is transitive.
pub proof fn lemma_name_order_transitive(a: Seq<char>, b: Seq<char>, c: Seq<char>)
    requires
        name_before(a, b),
        name_before(b, c),
    ensures
        name_before(a, c),
{
    lemma_bytes_order_transitive(encode_utf8(a), encode_utf8(b), encode_utf8(c));
}

/// Whether the name `a` comes before the name `b`.
pub fn name_comes_before(a: &str, b: &str) -> (r: bool)
    ensures
        r == name_before(a@, b@),
{
    let x = a.as_bytes();
    let y = b.as_bytes();
    let mut i: usize = 0;
    while i < x.len() && i < y.len()
        invariant
            i <= x.len(),
            i <= y.len(),
            x@ == encode_utf8(a@),
            y@ == encode_utf8(b@),
            forall|j: int| 0 <= j < i ==> x@[j] == y@[j],
        decreases x.len() - i,
    {
        if x[i] < y[i] {
            assert(bytes_part_at(x@, y@, i as int));
            return true;
        }
        if x[i] > y[i] {
            assert forall|k: int| !bytes_part_at(x@, y@, k) by {
                if bytes_part_at(x@, y@, k) {
                    if k > i {
                        assert(x@[i as int] == y@[i as int]);
                    }
                }
            }
            return false;
        }
        i += 1;
    }
    if x.len() < y.len() {
        assert(bytes_part_at(x@, y@, i as int));
        true
    } else {
        assert forall|k: int| !bytes_part_at(x@, y@, k) by {
            if bytes_part_at(x@, y@, k) {
                if k < y@.len() && k < x@.len() {
                    assert(x@[k] == y@[k]);
                }
            }
        }
        false
    }
}

} // verus!
