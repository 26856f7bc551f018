use vstd::prelude::*;

use crate::id::WasmiumHashID;

verus! {

/// Strict byte-lexicographic order on byte sequences: `a` comes first
/// exactly when it is a proper prefix of `b`, or its byte at the first
/// differing position is the smaller one. This is the order in which
/// encoded identifiers sort, and it matches the standard ordering of
/// byte slices.
pub open spec fn lex_less(a: Seq<u8>, b: Seq<u8>) -> bool
    decreases a.len(),
{
    if b.len() == 0 {
        false
    } else if a.len() == 0 {
        true
    } else if a[0] < b[0] {
        true
    } else if a[0] == b[0] {
        lex_less(a.skip(1), b.skip(1))
    } else {
        false
    }
}

/// Appending to two equal-length sequences keeps their strict
/// lexicographic order, whatever is appended: the order is already
/// decided at some position inside the equal-length parts.
pub proof fn lemma_lex_less_append(a: Seq<u8>, b: Seq<u8>, x: Seq<u8>, y: Seq<u8>)
    requires
        a.len() == b.len(),
        lex_less(a, b),
    ensures
        lex_less(a + x, b + y),
    decreases a.len(),
{
    if a.len() == 0 {
        // lex_less of two empty sequences is false, so this case cannot arise
        assert(false);
    } else {
        assert((a + x).len() > 0);
        assert((b + y).len() > 0);
        assert((a + x)[0] == a[0]);
        assert((b + y)[0] == b[0]);
        if a[0] == b[0] {
            lemma_lex_less_append(a.skip(1), b.skip(1), x, y);
            assert((a + x).skip(1) =~= a.skip(1) + x);
            assert((b + y).skip(1) =~= b.skip(1) + y);
        }
    }
}

/// Law: ordering consistency. If one identifier's timestamp field sorts
/// strictly below another's, their whole encodings sort the same way,
/// regardless of either digest: the timestamp bytes come first and have
/// equal width, so they dominate the comparison.
pub proof fn lemma_encoding_orders_by_timestamp(i1: WasmiumHashID, i2: WasmiumHashID)
    requires
        lex_less(i1.tai_timestamp@, i2.tai_timestamp@),
    ensures
        lex_less(i1.encoded(), i2.encoded()),
{
    lemma_lex_less_append(
        i1.tai_timestamp@,
        i2.tai_timestamp@,
        i1.blake3hash@,
        i2.blake3hash@,
    );
}

} // verus!
