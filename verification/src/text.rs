//! Comparison of strings by their UTF-8 bytes.
//!
//! Identities are ordered the way `str` orders itself: lexicographically by
//! byte. The order is stated here over byte sequences and proved to be a
//! strict total order, so that a sequence sorted by it is determined by the
//! set of its elements.

use vstd::prelude::*;
use vstd::utf8::{encode_utf8, encode_utf8_decode_utf8};

verus! {

/// The outcome of comparing two strings.
#[derive(Clone, Copy, Debug, PartialEq, Eq, Structural)]
pub enum Order {
    Less,
    Equal,
    Greater,
}

/// `a` and `b` agree on their first `k` bytes.
pub open spec fn agree_upto(a: Seq<u8>, b: Seq<u8>, k: int) -> bool {
    &&& 0 <= k <= a.len()
    &&& k <= b.len()
    &&& forall|i: int| 0 <= i < k ==> a[i] == b[i]
}

/// `a` comes before `b`, the first difference being at index `k`: either `a`
/// ends there and `b` goes on, or `a` holds the smaller byte.
pub open spec fn precedes_at(a: Seq<u8>, b: Seq<u8>, k: int) -> bool {
    &&& agree_upto(a, b, k)
    &&& k < b.len()
    &&& (k == a.len() || a[k] < b[k])
}

/// Strict lexicographic order on byte sequences.
pub open spec fn bytes_lt(a: Seq<u8>, b: Seq<u8>) -> bool {
    exists|k: int| precedes_at(a, b, k)
}

/// Strict order on strings: lexicographic on their UTF-8 encoding.
pub open spec fn str_lt(a: Seq<char>, b: Seq<char>) -> bool {
    bytes_lt(encode_utf8(a), encode_utf8(b))
}

/// No byte sequence comes before itself.
pub proof fn lemma_bytes_lt_irreflexive(a: Seq<u8>)
    ensures
        !bytes_lt(a, a),
{
}

/// Of two byte sequences at most one comes before the other.
pub proof fn lemma_bytes_lt_asymmetric(a: Seq<u8>, b: Seq<u8>)
    requires
        bytes_lt(a, b),
    ensures
        !bytes_lt(b, a),
{
    let k = choose|k: int| precedes_at(a, b, k);
    if bytes_lt(b, a) {
        let m = choose|m: int| precedes_at(b, a, m);
        if m < k {
            assert(a[m] == b[m]);
        } else if k < m {
            assert(b[k] == a[k]);
        }
    }
}

/// The order is transitive.
pub proof fn lemma_bytes_lt_transitive(a: Seq<u8>, b: Seq<u8>, c: Seq<u8>)
    requires
        bytes_lt(a, b),
        bytes_lt(b, c),
    ensures
        bytes_lt(a, c),
{
    let k = choose|k: int| precedes_at(a, b, k);
    let m = choose|m: int| precedes_at(b, c, m);
    if k <= m {
        assert forall|i: int| 0 <= i < k implies a[i] == c[i] by {
            assert(a[i] == b[i]);
            assert(b[i] == c[i]);
        }
        if k < a.len() && k < m {
            assert(b[k] == c[k]);
        }
        assert(precedes_at(a, c, k));
    } else {
        assert forall|i: int| 0 <= i < m implies a[i] == c[i] by {
            assert(a[i] == b[i]);
            assert(b[i] == c[i]);
        }
        assert(a[m] == b[m]);
        assert(precedes_at(a, c, m));
    }
}

/// Two byte sequences are equal, or one comes before the other.
pub proof fn lemma_bytes_lt_total(a: Seq<u8>, b: Seq<u8>)
    ensures
        a == b || bytes_lt(a, b) || bytes_lt(b, a),
    decreases a.len(),
{
    if a.len() == 0 {
        if b.len() == 0 {
            assert(a =~= b);
        } else {
            assert(precedes_at(a, b, 0));
        }
    } else if b.len() == 0 {
        assert(precedes_at(b, a, 0));
    } else if a[0] < b[0] {
        assert(precedes_at(a, b, 0));
    } else if b[0] < a[0] {
        assert(precedes_at(b, a, 0));
    } else {
        let ra = a.drop_first();
        let rb = b.drop_first();
        lemma_bytes_lt_total(ra, rb);
        if ra == rb {
            assert(a =~= b) by {
                assert forall|i: int| 0 <= i < a.len() implies a[i] == b[i] by {
                    if i > 0 {
                        assert(ra[i - 1] == a[i]);
                        assert(rb[i - 1] == b[i]);
                    }
                }
                assert(ra.len() == rb.len());
            }
        } else if bytes_lt(ra, rb) {
            let k = choose|k: int| precedes_at(ra, rb, k);
            assert forall|i: int| 0 <= i < k + 1 implies a[i] == b[i] by {
                if i > 0 {
                    assert(ra[i - 1] == rb[i - 1]);
                }
            }
            if k < ra.len() {
                assert(ra[k] == a[k + 1]);
                assert(rb[k] == b[k + 1]);
            }
            assert(precedes_at(a, b, k + 1));
        } else {
            let k = choose|k: int| precedes_at(rb, ra, k);
            assert forall|i: int| 0 <= i < k + 1 implies b[i] == a[i] by {
                if i > 0 {
                    assert(rb[i - 1] == ra[i - 1]);
                }
            }
            if k < rb.len() {
                assert(ra[k] == a[k + 1]);
                assert(rb[k] == b[k + 1]);
            }
            assert(precedes_at(b, a, k + 1));
        }
    }
}

/// Strings with the same UTF-8 encoding are the same string.
pub proof fn lemma_encoding_injective(a: Seq<char>, b: Seq<char>)
    requires
        encode_utf8(a) == encode_utf8(b),
    ensures
        a == b,
{
    encode_utf8_decode_utf8(a);
    encode_utf8_decode_utf8(b);
}

/// No string comes before itself.
pub proof fn lemma_str_lt_irreflexive(a: Seq<char>)
    ensures
        !str_lt(a, a),
{
    lemma_bytes_lt_irreflexive(encode_utf8(a));
}

/// Of two strings at most one comes before the other.
pub proof fn lemma_str_lt_asymmetric(a: Seq<char>, b: Seq<char>)
    requires
        str_lt(a, b),
    ensures
        !str_lt(b, a),
        a != b,
{
    lemma_bytes_lt_asymmetric(encode_utf8(a), encode_utf8(b));
    lemma_bytes_lt_irreflexive(encode_utf8(a));
}

/// The order on strings is transitive.
pub proof fn lemma_str_lt_transitive(a: Seq<char>, b: Seq<char>, c: Seq<char>)
    requires
        str_lt(a, b),
        str_lt(b, c),
    ensures
        str_lt(a, c),
{
    lemma_bytes_lt_transitive(encode_utf8(a), encode_utf8(b), encode_utf8(c));
}

/// Two strings are equal, or one comes before the other.
pub proof fn lemma_str_lt_total(a: Seq<char>, b: Seq<char>)
    ensures
        a == b || str_lt(a, b) || str_lt(b, a),
{
    lemma_bytes_lt_total(encode_utf8(a), encode_utf8(b));
    if encode_utf8(a) == encode_utf8(b) {
        lemma_encoding_injective(a, b);
    }
}

/// What `compare` returns for two strings.
pub open spec fn order_of(a: Seq<char>, b: Seq<char>) -> Order {
    if a == b {
        Order::Equal
    } else if str_lt(a, b) {
        Order::Less
    } else {
        Order::Greater
    }
}

/// Compares two strings by their UTF-8 bytes.
pub fn compare(a: &str, b: &str) -> (r: Order)
    ensures
        r == order_of(a@, b@),
        r == Order::Greater ==> str_lt(b@, a@),
{
    let x = a.as_bytes();
    let y = b.as_bytes();
    let n = x.len();
    let m = y.len();
    let mut i: usize = 0;
    while i < n && i < m
        invariant
            n == x@.len(),
            m == y@.len(),
            x@ == encode_utf8(a@),
            y@ == encode_utf8(b@),
            agree_upto(x@, y@, i as int),
        decreases n - i,
    {
        if x[i] < y[i] {
            proof {
                assert(precedes_at(x@, y@, i as int));
                lemma_str_lt_asymmetric(a@, b@);
            }
            return Order::Less;
        }
        if y[i] < x[i] {
            proof {
                assert(precedes_at(y@, x@, i as int));
                lemma_str_lt_asymmetric(b@, a@);
            }
            return Order::Greater;
        }
        i += 1;
    }
    if n < m {
        proof {
            assert(precedes_at(x@, y@, i as int));
            lemma_str_lt_asymmetric(a@, b@);
        }
        Order::Less
    } else if m < n {
        proof {
            assert(precedes_at(y@, x@, i as int));
            lemma_str_lt_asymmetric(b@, a@);
        }
        Order::Greater
    } else {
        proof {
            assert(x@ =~= y@);
            lemma_encoding_injective(a@, b@);
        }
        Order::Equal
    }
}

/// Tells whether two strings are the same.
pub fn same(a: &str, b: &str) -> (r: bool)
    ensures
        r == (a@ == b@),
{
    let x = a.as_bytes();
    let y = b.as_bytes();
    if x.len() != y.len() {
        return false;
    }
    let n = x.len();
    let mut i: usize = 0;
    while i < n
        invariant
            n == x@.len(),
            n == y@.len(),
            x@ == encode_utf8(a@),
            y@ == encode_utf8(b@),
            forall|j: int| 0 <= j < i ==> x@[j] == y@[j],
        decreases n - i,
    {
        if x[i] != y[i] {
            return false;
        }
        i += 1;
    }
    proof {
        assert(x@ =~= y@);
        lemma_encoding_injective(a@, b@);
    }
    true
}

} // verus!
