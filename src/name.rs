use vstd::prelude::*;
use vstd::utf8::{
    char_u32_cast, decode_utf8, encode_scalar, encode_utf8, encode_utf8_decode_utf8, encode_utf8_valid_utf8,
    valid_utf8,
};

use crate::error::ErrorCode;

verus! {

/// The number of bytes in a name slot.
pub const NAME_LEN: usize = 32;

/// The UTF-8 bytes of a name.
pub open spec fn name_bytes(s: Seq<char>) -> Seq<u8> {
    encode_utf8(s)
}

/// `b` followed by zero bytes up to the width of a name slot.
pub open spec fn pad_name(b: Seq<u8>) -> Seq<u8> {
    b + Seq::new((NAME_LEN - b.len()) as nat, |i: int| 0u8)
}

/// `b` without its trailing zero bytes.
pub open spec fn trim_zeros(b: Seq<u8>) -> Seq<u8>
    decreases b.len(),
{
    if b.len() > 0 && b.last() == 0 {
        trim_zeros(b.drop_last())
    } else {
        b
    }
}

/// Packs a name into a zero-padded slot of `NAME_LEN` bytes, left-aligned.
/// A name whose UTF-8 encoding is longer than the slot is refused.
pub fn parse_string(string: String) -> (r: Result<[u8; 32], ErrorCode>)
    ensures
        r is Ok <==> name_bytes(string@).len() <= NAME_LEN,
        r matches Ok(slot) ==> slot@ == pad_name(name_bytes(string@)),
        r matches Err(e) ==> e == ErrorCode::InvalidNameLength,
{
    let src = string.as_str().as_bytes();
    if src.len() > NAME_LEN {
        return Err(ErrorCode::InvalidNameLength);
    }
    let mut data = [0u8; 32];
    let mut i: usize = 0;
    while i < src.len()
        invariant
            src@ == name_bytes(string@),
            src@.len() <= NAME_LEN,
            i <= src@.len(),
            data@.len() == NAME_LEN,
            forall|j: int| 0 <= j < i ==> data@[j] == src@[j],
            forall|j: int| i <= j < NAME_LEN ==> data@[j] == 0,
        decreases src@.len() - i,
    {
        data[i] = src[i];
        i = i + 1;
    }
    assert(data@ =~= pad_name(src@));
    Ok(data)
}

/// `s` without its trailing NUL characters.
pub open spec fn trim_nul(s: Seq<char>) -> Seq<char>
    decreases s.len(),
{
    if s.len() > 0 && s.last() == '\0' {
        trim_nul(s.drop_last())
    } else {
        s
    }
}

/// Relies on `String::from_utf8`: valid UTF-8 is taken as the string it
/// encodes, and a string is always the encoding of its characters.
#[verifier::external_body]
fn string_from_utf8(bytes: Vec<u8>) -> (r: Option<String>)
    ensures
        valid_utf8(bytes@) ==> r is Some,
        r matches Some(s) ==> encode_utf8(s@) == bytes@,
{
    String::from_utf8(bytes).ok()
}

/// The bytes of a name slot without its trailing zero bytes.
pub fn name_slice(slot: &[u8; 32]) -> (r: Vec<u8>)
    ensures
        r@ == trim_zeros(slot@),
{
    let mut end: usize = NAME_LEN;
    assert(slot@.subrange(0, NAME_LEN as int) =~= slot@);
    while end > 0 && slot[end - 1] == 0
        invariant
            end <= NAME_LEN,
            slot@.len() == NAME_LEN,
            trim_zeros(slot@.subrange(0, end as int)) == trim_zeros(slot@),
        decreases end,
    {
        assert(slot@.subrange(0, end as int).drop_last() =~= slot@.subrange(0, end - 1));
        end = end - 1;
    }
    let mut out: Vec<u8> = Vec::new();
    let mut i: usize = 0;
    while i < end
        invariant
            i <= end <= NAME_LEN,
            slot@.len() == NAME_LEN,
            out@ =~= slot@.subrange(0, i as int),
        decreases end - i,
    {
        out.push(slot[i]);
        i = i + 1;
    }
    out
}

/// Decodes a name slot into the name it holds: its bytes without the trailing
/// zero bytes, read as UTF-8. None where those bytes are not valid UTF-8.
pub fn decode_name(slot: &[u8; 32]) -> (r: Option<String>)
    ensures
        r is Some <==> valid_utf8(trim_zeros(slot@)),
        r matches Some(s) ==> s@ == decode_utf8(trim_zeros(slot@)),
{
    let bytes = name_slice(slot);
    let r = string_from_utf8(bytes);
    proof {
        if r is Some {
            encode_utf8_valid_utf8(r->Some_0@);
            encode_utf8_decode_utf8(r->Some_0@);
        }
    }
    r
}

proof fn lemma_encode_concat(a: Seq<char>, b: Seq<char>)
    ensures
        encode_utf8(a + b) == encode_utf8(a) + encode_utf8(b),
    decreases a.len(),
{
    if a.len() == 0 {
        assert(a + b =~= b);
        assert(encode_utf8(a) + encode_utf8(b) =~= encode_utf8(b));
    } else {
        assert((a + b).drop_first() =~= a.drop_first() + b);
        lemma_encode_concat(a.drop_first(), b);
        assert(encode_utf8(a + b) =~= encode_utf8(a) + encode_utf8(b));
    }
}

proof fn lemma_encode_last(s: Seq<char>)
    requires
        s.len() > 0,
    ensures
        encode_utf8(s) == encode_utf8(s.drop_last()) + encode_scalar(s.last() as u32),
{
    let c = s.last();
    assert(s =~= s.drop_last() + seq![c]);
    lemma_encode_concat(s.drop_last(), seq![c]);
    assert(seq![c].drop_first() =~= Seq::<char>::empty());
    assert(encode_utf8(Seq::<char>::empty()) =~= Seq::<u8>::empty());
    assert(encode_utf8(seq![c]) == encode_scalar(seq![c][0] as u32) + encode_utf8(
        seq![c].drop_first(),
    ));
    assert(encode_utf8(seq![c]) =~= encode_scalar(c as u32));
}

proof fn lemma_trim_padding(b: Seq<u8>, k: nat)
    ensures
        trim_zeros(b + Seq::new(k, |i: int| 0u8)) == trim_zeros(b),
    decreases k,
{
    let p = b + Seq::new(k, |i: int| 0u8);
    if k == 0 {
        assert(p =~= b);
    } else {
        assert(p.last() == 0);
        assert(p.drop_last() =~= b + Seq::new((k - 1) as nat, |i: int| 0u8));
        lemma_trim_padding(b, (k - 1) as nat);
    }
}

proof fn lemma_trim_encoding(s: Seq<char>)
    ensures
        trim_zeros(encode_utf8(s)) == encode_utf8(trim_nul(s)),
    decreases s.len(),
{
    if s.len() > 0 {
        let c = s.last();
        let v = c as u32;
        lemma_encode_last(s);
        if c == '\0' {
            assert(v == 0);
            assert(((0u32 & 0x7F) as u8) == 0) by (bit_vector);
            assert(encode_scalar(v) =~= seq![0u8]);
            assert(encode_utf8(s).drop_last() =~= encode_utf8(s.drop_last()));
            lemma_trim_encoding(s.drop_last());
        } else {
            assert(v != 0) by {
                if v == 0 {
                    char_u32_cast(c, v);
                    char_u32_cast('\0', 0u32);
                }
            }
            let e = encode_scalar(v);
            assert(e.last() != 0) by {
                assert(v <= 0x7F && v != 0 ==> ((v & 0x7F) as u8) != 0) by (bit_vector);
                assert((0x80u8 | ((v & 0x3F) as u8)) != 0) by (bit_vector);
            }
            assert(encode_utf8(s).last() == e.last());
        }
    }
}

/// Packing a name that fits its slot and decoding the slot gives back the
/// name, less its trailing NUL characters.
pub proof fn lemma_name_round_trip(s: Seq<char>)
    requires
        name_bytes(s).len() <= NAME_LEN,
    ensures
        valid_utf8(trim_zeros(pad_name(name_bytes(s)))),
        decode_utf8(trim_zeros(pad_name(name_bytes(s)))) == trim_nul(s),
{
    let b = name_bytes(s);
    lemma_trim_padding(b, (NAME_LEN - b.len()) as nat);
    lemma_trim_encoding(s);
    encode_utf8_valid_utf8(trim_nul(s));
    encode_utf8_decode_utf8(trim_nul(s));
}

} // verus!
