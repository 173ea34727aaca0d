//! Comparing the names that travel in a keyed document.

use vstd::prelude::*;
use vstd::string::StringSliceAdditionalSpecFns;
use vstd::utf8::{encode_utf8, encode_utf8_decode_utf8};

verus! {

/// Two texts with the same UTF-8 encoding are the same text.
pub proof fn lemma_same_encoding_same_text(a: Seq<char>, b: Seq<char>)
    requires
        encode_utf8(a) == encode_utf8(b),
    ensures
        a == b,
{
    encode_utf8_decode_utf8(a);
    encode_utf8_decode_utf8(b);
}

/// Whether `a` and `b` hold the same bytes.
pub fn bytes_eq(a: &[u8], b: &[u8]) -> (same: bool)
    ensures
        same == (a@ == b@),
{
    if a.len() != b.len() {
        return false;
    }
    let n: usize = a.len();
    let mut i: usize = 0;
    while i < n
        invariant
            n == a@.len(),
            n == b@.len(),
            i <= n,
            a@.subrange(0, i as int) == b@.subrange(0, i as int),
        decreases n - i,
    {
        if a[i] != b[i] {
            return false;
        }
        proof {
            assert(a@.subrange(0, i + 1) =~= a@.subrange(0, i as int).push(a@[i as int]));
            assert(b@.subrange(0, i + 1) =~= b@.subrange(0, i as int).push(b@[i as int]));
        }
        i += 1;
    }
    proof {
        assert(a@ =~= a@.subrange(0, n as int));
        assert(b@ =~= b@.subrange(0, n as int));
    }
    true
}

/// Whether `a` and `b` are the same text.
pub fn str_eq(a: &str, b: &str) -> (same: bool)
    ensures
        same == (a@ == b@),
{
    let same = bytes_eq(a.as_bytes(), b.as_bytes());
    proof {
        if same {
            lemma_same_encoding_same_text(a@, b@);
        }
    }
    same
}

} // verus!
