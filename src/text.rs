//! Conversion of UTF-8 text to the host's null-terminated byte convention.

use vstd::prelude::*;
use vstd::string::*;
use vstd::utf8::*;

verus! {

/// The host-native form of `s`: its UTF-8 encoding followed by one NUL byte.
pub open spec fn c_text(s: Seq<char>) -> Seq<u8> {
    encode_utf8(s).push(0u8)
}

/// `s` can cross the boundary: its encoding holds no NUL byte.
pub open spec fn nul_free(s: Seq<char>) -> bool {
    forall|i: int| 0 <= i < encode_utf8(s).len() ==> encode_utf8(s)[i] != 0u8
}

/// The bytes of a host string up to (not including) its first NUL.
pub open spec fn before_nul(b: Seq<u8>) -> Seq<u8>
    decreases b.len(),
{
    if b.len() == 0 {
        b
    } else if b[0] == 0u8 {
        Seq::empty()
    } else {
        seq![b[0]] + before_nul(b.drop_first())
    }
}

/// The text that the host reads from a null-terminated byte string.
pub open spec fn read_c_text(b: Seq<u8>) -> Seq<char> {
    decode_utf8(before_nul(b))
}

/// Converts `s` to the host's convention; text with an embedded NUL is rejected.
pub fn to_c_text(s: &str) -> (r: Option<Vec<u8>>)
    ensures
        r.is_some() <==> nul_free(s@),
        r.is_some() ==> r.unwrap()@ == c_text(s@),
{
    let mut bytes = s.as_bytes_vec();
    let n = bytes.len();
    let mut i: usize = 0;
    while i < n
        invariant
            n == bytes@.len(),
            bytes@ == encode_utf8(s@),
            i <= n,
            forall|j: int| 0 <= j < i ==> bytes@[j] != 0u8,
        decreases n - i,
    {
        if bytes[i] == 0u8 {
            return None;
        }
        i = i + 1;
    }
    bytes.push(0u8);
    Some(bytes)
}

proof fn lemma_before_nul_of_nul_free(e: Seq<u8>)
    requires
        forall|i: int| 0 <= i < e.len() ==> e[i] != 0u8,
    ensures
        before_nul(e.push(0u8)) == e,
    decreases e.len(),
{
    if e.len() == 0 {
        assert(e.push(0u8)[0] == 0u8);
    } else {
        let t = e.drop_first();
        assert(e.push(0u8).drop_first() == t.push(0u8));
        lemma_before_nul_of_nul_free(t);
        assert(seq![e[0]] + t == e);
    }
}

/// Text that holds no NUL reads back unchanged from its host-native form.
pub proof fn lemma_c_text_round_trip(s: Seq<char>)
    requires
        nul_free(s),
    ensures
        read_c_text(c_text(s)) == s,
{
    lemma_before_nul_of_nul_free(encode_utf8(s));
    encode_utf8_decode_utf8(s);
}

} // verus!
