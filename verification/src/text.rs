//! Comparison of strings by their encoded bytes.

use vstd::prelude::*;
use vstd::string::StringSliceAdditionalSpecFns;
use vstd::utf8::{encode_utf8, encode_utf8_decode_utf8};

verus! {

/// How one string stands to another in byte-wise dictionary order.
#[derive(Clone, Copy, Debug, PartialEq, Eq, Structural)]
pub enum TextOrder {
    /// The first string sorts before the second.
    Before,
    /// The two strings are the same.
    Same,
    /// The first string sorts after the second.
    After,
}

/// Byte-wise dictionary order: `a` and `b` agree on their first `k` bytes,
/// and there `a` ends or holds the smaller byte.
pub open spec fn bytes_lt(a: Seq<u8>, b: Seq<u8>) -> bool {
    exists|k: int| #[trigger] diverge_at(a, b, k)
}

/// `a` sorts before `b` because of what stands at position `k`.
pub open spec fn diverge_at(a: Seq<u8>, b: Seq<u8>, k: int) -> bool {
    &&& 0 <= k < b.len()
    &&& k <= a.len()
    &&& a.subrange(0, k) == b.subrange(0, k)
    &&& (k == a.len() || a[k] < b[k])
}

/// Dictionary order on strings, by the bytes of their encoding.
pub open spec fn text_lt(a: Seq<char>, b: Seq<char>) -> bool {
    bytes_lt(encode_utf8(a), encode_utf8(b))
}

/// Strings with the same encoding are the same string.
pub proof fn lemma_encoding_injective(a: Seq<char>, b: Seq<char>)
    requires
        encode_utf8(a) == encode_utf8(b),
    ensures
        a == b,
{
    encode_utf8_decode_utf8(a);
    encode_utf8_decode_utf8(b);
}

/// No string sorts before itself.
pub proof fn lemma_text_lt_irreflexive(a: Seq<char>)
    ensures
        !text_lt(a, a),
{
}

/// Dictionary order is transitive.
pub proof fn lemma_text_lt_transitive(a: Seq<char>, b: Seq<char>, c: Seq<char>)
    requires
        text_lt(a, b),
        text_lt(b, c),
    ensures
        text_lt(a, c),
{
    let x = encode_utf8(a);
    let y = encode_utf8(b);
    let z = encode_utf8(c);
    let i = choose|k: int| #[trigger] diverge_at(x, y, k);
    let j = choose|k: int| #[trigger] diverge_at(y, z, k);
    let m = if i <= j {
        i
    } else {
        j
    };
    assert(x.subrange(0, m) =~= z.subrange(0, m)) by {
        assert forall|p: int| 0 <= p < m implies x[p] == z[p] by {
            assert(x.subrange(0, i)[p] == y.subrange(0, i)[p]);
            assert(y.subrange(0, j)[p] == z.subrange(0, j)[p]);
        }
    }
    if i < j {
        assert(y.subrange(0, j)[i] == z.subrange(0, j)[i]);
    } else if j < i {
        assert(x.subrange(0, i)[j] == y.subrange(0, i)[j]);
    }
    assert(diverge_at(x, z, m));
}

/// Compares two strings in byte-wise dictionary order.
pub fn compare_text(a: &str, b: &str) -> (order: TextOrder)
    ensures
        order == TextOrder::Before <==> text_lt(a@, b@),
        order == TextOrder::Same <==> a@ == b@,
        order == TextOrder::After <==> text_lt(b@, a@),
{
    let x = a.as_bytes();
    let y = b.as_bytes();
    let mut i: usize = 0;
    while i < x.len() && i < y.len()
        invariant
            i <= x.len(),
            i <= y.len(),
            x@ == encode_utf8(a@),
            y@ == encode_utf8(b@),
            x@.subrange(0, i as int) == y@.subrange(0, i as int),
        decreases x.len() - i,
    {
        if x[i] < y[i] {
            proof {
                assert(diverge_at(x@, y@, i as int));
                lemma_text_lt_asymmetric(a@, b@);
                assert(x@[i as int] != y@[i as int]);
            }
            return TextOrder::Before;
        }
        if x[i] > y[i] {
            proof {
                assert(y@.subrange(0, i as int) == x@.subrange(0, i as int));
                assert(diverge_at(y@, x@, i as int));
                lemma_text_lt_asymmetric(b@, a@);
                assert(x@[i as int] != y@[i as int]);
            }
            return TextOrder::After;
        }
        proof {
            assert(x@.subrange(0, i + 1) =~= x@.subrange(0, i as int).push(x@[i as int]));
            assert(y@.subrange(0, i + 1) =~= y@.subrange(0, i as int).push(y@[i as int]));
        }
        i += 1;
    }
    if i < y.len() {
        proof {
            assert(diverge_at(x@, y@, i as int));
            lemma_text_lt_asymmetric(a@, b@);
        }
        TextOrder::Before
    } else if i < x.len() {
        proof {
            assert(diverge_at(y@, x@, i as int));
            lemma_text_lt_asymmetric(b@, a@);
        }
        TextOrder::After
    } else {
        proof {
            assert(x@ =~= x@.subrange(0, i as int));
            assert(y@ =~= y@.subrange(0, i as int));
            lemma_encoding_injective(a@, b@);
            lemma_text_lt_irreflexive(a@);
        }
        TextOrder::Same
    }
}

/// Of two strings at most one sorts before the other, and then they differ.
pub proof fn lemma_text_lt_asymmetric(a: Seq<char>, b: Seq<char>)
    requires
        text_lt(a, b),
    ensures
        !text_lt(b, a),
        a != b,
{
    if text_lt(b, a) {
        lemma_text_lt_transitive(a, b, a);
        lemma_text_lt_irreflexive(a);
    }
    lemma_text_lt_irreflexive(a);
}

/// Whether two strings are the same.
pub fn same_text(a: &str, b: &str) -> (same: bool)
    ensures
        same == (a@ == b@),
{
    compare_text(a, b) == TextOrder::Same
}

} // verus!
