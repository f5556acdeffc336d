//! Comparisons of strings by their characters.
use vstd::prelude::*;
use vstd::utf8::{char_is_scalar, char_u32_cast, decode_first_scalar, encode_scalar, encode_utf8, encode_utf8_first_scalar, length_of_first_scalar};

verus! {

/// Whether the two strings hold the same characters.
pub fn str_eq(a: &str, b: &str) -> (r: bool)
    ensures
        r == (a@ == b@),
{
    let x: String = a.to_owned();
    let y: String = b.to_owned();
    x == y
}

/// Whether `p` is a prefix of `s` (the characters of `s`, read from the start).
pub open spec fn is_prefix(p: Seq<char>, s: Seq<char>) -> bool {
    p.len() <= s.len() && s.subrange(0, p.len() as int) == p
}

/// Encoding two runs of characters one after the other gives their encodings one
/// after the other.
proof fn lemma_encode_concat(a: Seq<char>, b: Seq<char>)
    ensures
        encode_utf8(a + b) == encode_utf8(a) + encode_utf8(b),
    decreases a.len(),
{
    if a.len() == 0 {
        assert(a + b =~= b);
        assert(encode_utf8(a) + encode_utf8(b) =~= encode_utf8(b));
    } else {
        lemma_encode_concat(a.drop_first(), b);
        assert((a + b).drop_first() =~= a.drop_first() + b);
        assert((a + b)[0] == a[0]);
        assert(encode_utf8(a + b) =~= encode_utf8(a) + encode_utf8(b));
    }
}

/// When the encoding of `p` begins the encoding of `s`, `p` begins `s`.
proof fn lemma_byte_prefix(p: Seq<char>, s: Seq<char>)
    requires
        encode_utf8(p).len() <= encode_utf8(s).len(),
        forall|j: int| 0 <= j < encode_utf8(p).len() ==> encode_utf8(s)[j] == encode_utf8(p)[j],
    ensures
        is_prefix(p, s),
    decreases p.len(),
{
    if p.len() == 0 {
        assert(s.subrange(0, 0) =~= p);
    } else {
        let ep = encode_utf8(p);
        let es = encode_utf8(s);
        encode_utf8_first_scalar(p);
        char_is_scalar(p[0]);
        assert(encode_scalar(p[0] as u32).len() > 0);
        assert(ep.len() > 0);
        if s.len() == 0 {
            assert(false);
        }
        encode_utf8_first_scalar(s);
        char_is_scalar(s[0]);
        assert(es[0] == ep[0]);
        let l = length_of_first_scalar(ep);
        assert(length_of_first_scalar(es) == l);
        assert(l <= 4);
        assert(es[0] == ep[0] && (l > 1 ==> es[1] == ep[1]) && (l > 2 ==> es[2] == ep[2]) && (l > 3 ==> es[3] == ep[3]));
        assert(decode_first_scalar(es) == decode_first_scalar(ep));
        char_u32_cast(p[0], decode_first_scalar(ep));
        char_u32_cast(s[0], decode_first_scalar(es));
        assert(s[0] == p[0]);
        let ep1 = encode_utf8(p.drop_first());
        let es1 = encode_utf8(s.drop_first());
        assert(ep == encode_scalar(p[0] as u32) + ep1);
        assert(es == encode_scalar(s[0] as u32) + es1);
        assert forall|j: int| 0 <= j < ep1.len() implies es1[j] == ep1[j] by {
            assert(ep[l + j] == ep1[j]);
            assert(es[l + j] == es1[j]);
        }
        lemma_byte_prefix(p.drop_first(), s.drop_first());
        assert(s.subrange(0, p.len() as int) =~= seq![s[0]] + s.drop_first().subrange(0, p.len() - 1));
        assert(p =~= seq![p[0]] + p.drop_first());
    }
}

/// Whether `p` is a prefix of `s`: their encodings are compared byte by byte.
pub fn str_starts_with(s: &str, p: &str) -> (r: bool)
    ensures
        r == is_prefix(p@, s@),
{
    let sb = s.as_bytes();
    let pb = p.as_bytes();
    proof {
        if is_prefix(p@, s@) {
            assert(s@ =~= p@ + s@.skip(p@.len() as int));
            lemma_encode_concat(p@, s@.skip(p@.len() as int));
        }
    }
    if pb.len() > sb.len() {
        return false;
    }
    let mut i: usize = 0;
    while i < pb.len()
        invariant
            i <= pb@.len(),
            pb@.len() <= sb@.len(),
            pb@ == encode_utf8(p@),
            sb@ == encode_utf8(s@),
            is_prefix(p@, s@) ==> forall|j: int| 0 <= j < pb@.len() ==> sb@[j] == pb@[j],
            forall|j: int| 0 <= j < i ==> sb@[j] == pb@[j],
        decreases pb@.len() - i,
    {
        if sb[i] != pb[i] {
            return false;
        }
        i = i + 1;
    }
    proof {
        lemma_byte_prefix(p@, s@);
    }
    true
}

} // verus!
