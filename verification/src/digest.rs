use vstd::prelude::*;
use sha2::Digest;
use crate::text::push_char;

verus! {

/// The SHA-256 digest of a byte sequence, as `sha2` computes it.
pub uninterp spec fn sha256_spec(bytes: Seq<u8>) -> Seq<u8>;

/// Calls `sha2::Sha256::digest`. Trusted: the result is the SHA-256 digest of
/// `bytes` (named `sha256_spec`) and, as for every SHA-256 digest, 32 bytes long.
#[verifier::external_body]
pub(crate) fn sha256(bytes: &[u8]) -> (out: Vec<u8>)
    ensures
        out@ == sha256_spec(bytes@),
        out@.len() == 32,
{
    sha2::Sha256::digest(bytes).to_vec()
}

/// The lower-case hexadecimal digit of a value below sixteen.
pub open spec fn hex_char_spec(n: nat) -> char {
    if n < 10 {
        crate::text::digit_char_spec(n)
    } else if n == 10 { 'a' }
    else if n == 11 { 'b' }
    else if n == 12 { 'c' }
    else if n == 13 { 'd' }
    else if n == 14 { 'e' }
    else { 'f' }
}

/// Lower-case hexadecimal, two digits per byte, high nibble first.
pub open spec fn hex_spec(bytes: Seq<u8>) -> Seq<char>
    decreases bytes.len(),
{
    if bytes.len() == 0 {
        Seq::empty()
    } else {
        hex_spec(bytes.drop_last()).push(hex_char_spec((bytes.last() / 16) as nat)).push(
            hex_char_spec((bytes.last() % 16) as nat),
        )
    }
}

/// Every character of a hexadecimal encoding is a lower-case hexadecimal digit.
pub proof fn lemma_hex_digits(bytes: Seq<u8>)
    ensures
        forall|i: int| 0 <= i < hex_spec(bytes).len() ==> crate::text::is_lower_hex_spec(#[trigger] hex_spec(bytes)[i]),
        hex_spec(bytes).len() == 2 * bytes.len(),
    decreases bytes.len(),
{
    if bytes.len() > 0 {
        lemma_hex_digits(bytes.drop_last());
        let rest = hex_spec(bytes.drop_last());
        let h = hex_char_spec((bytes.last() / 16) as nat);
        let l = hex_char_spec((bytes.last() % 16) as nat);
        assert forall|i: int| 0 <= i < hex_spec(bytes).len() implies crate::text::is_lower_hex_spec(
            #[trigger] hex_spec(bytes)[i],
        ) by {
            if i < rest.len() {
                assert(hex_spec(bytes)[i] == rest[i]);
            } else if i == rest.len() {
                assert(hex_spec(bytes)[i] == h);
            } else {
                assert(hex_spec(bytes)[i] == l);
            }
        }
    }
}

/// The lower-case hexadecimal digit of a value below sixteen.
pub fn hex_char(n: u8) -> (c: char)
    requires
        n < 16,
    ensures
        c == hex_char_spec(n as nat),
{
    if n < 10 {
        crate::text::digit_char(n as usize)
    } else if n == 10 { 'a' }
    else if n == 11 { 'b' }
    else if n == 12 { 'c' }
    else if n == 13 { 'd' }
    else if n == 14 { 'e' }
    else { 'f' }
}

/// Appends the lower-case hexadecimal encoding of `bytes` to `out`.
pub fn push_hex(out: &mut String, bytes: &[u8])
    ensures
        final(out)@ == old(out)@ + hex_spec(bytes@),
{
    let mut i: usize = 0;
    while i < bytes.len()
        invariant
            i <= bytes@.len(),
            out@ == old(out)@ + hex_spec(bytes@.subrange(0, i as int)),
        decreases bytes.len() - i,
    {
        let b = bytes[i];
        push_char(out, hex_char(b / 16));
        push_char(out, hex_char(b % 16));
        proof {
            let pre = bytes@.subrange(0, i as int);
            let next = bytes@.subrange(0, i + 1);
            assert(next.drop_last() =~= pre);
            assert(next.last() == b);
        }
        i = i + 1;
        proof {
            assert(out@ =~= old(out)@ + hex_spec(bytes@.subrange(0, i as int)));
        }
    }
    proof {
        assert(bytes@.subrange(0, bytes@.len() as int) =~= bytes@);
    }
}

/// The lower-case hexadecimal encoding of `bytes`.
pub fn digest_hex(bytes: &[u8]) -> (out: String)
    ensures
        out@ == hex_spec(bytes@),
{
    let mut out = String::new();
    push_hex(&mut out, bytes);
    proof {
        assert(out@ =~= hex_spec(bytes@));
    }
    out
}

/// `prefix`, a colon, and the hexadecimal SHA-256 digest of `bytes`.
pub fn tagged_digest(prefix: &str, bytes: &[u8]) -> (out: String)
    ensures
        out@ == prefix@ + seq![':'] + hex_spec(sha256_spec(bytes@)),
        out@.len() == prefix@.len() + 65,
        forall|i: int| prefix@.len() < i < out@.len() ==> crate::text::is_lower_hex_spec(#[trigger] out@[i]),
{
    let mut out = String::from_str(prefix);
    push_char(&mut out, ':');
    let digest = sha256(bytes);
    push_hex(&mut out, digest.as_slice());
    proof {
        lemma_hex_digits(digest@);
        assert forall|i: int| prefix@.len() < i < out@.len() implies crate::text::is_lower_hex_spec(#[trigger] out@[i]) by {
            assert(out@[i] == hex_spec(digest@)[i - prefix@.len() - 1]);
        }
    }
    out
}

} // verus!

verus! {

/// Little-endian bytes of a length or index, widened to `u64`.
pub open spec fn le_u64(n: usize) -> Seq<u8> {
    vstd::bytes::spec_u64_to_le_bytes(n as u64)
}

/// A length-prefixed text field: the byte length as little-endian `u64`, then
/// the UTF-8 bytes.
pub open spec fn field_spec(s: Seq<char>) -> Seq<u8> {
    le_u64(vstd::utf8::encode_utf8(s).len() as usize) + vstd::utf8::encode_utf8(s)
}

/// Byte `i` of an encoded sequence is digits `2i` (high nibble) and `2i + 1`
/// (low nibble) of its hexadecimal encoding.
pub proof fn lemma_hex_index(bytes: Seq<u8>)
    ensures
        hex_spec(bytes).len() == 2 * bytes.len(),
        forall|i: int|
            0 <= i < bytes.len() ==> hex_spec(bytes)[2 * i] == hex_char_spec((#[trigger] bytes[i] / 16) as nat)
                && hex_spec(bytes)[2 * i + 1] == hex_char_spec((bytes[i] % 16) as nat),
    decreases bytes.len(),
{
    lemma_hex_digits(bytes);
    if bytes.len() > 0 {
        let rest = bytes.drop_last();
        lemma_hex_index(rest);
        assert forall|i: int| 0 <= i < bytes.len() implies hex_spec(bytes)[2 * i] == hex_char_spec(
            (#[trigger] bytes[i] / 16) as nat,
        ) && hex_spec(bytes)[2 * i + 1] == hex_char_spec((bytes[i] % 16) as nat) by {
            if i < rest.len() {
                assert(rest[i] == bytes[i]);
                assert(hex_spec(bytes)[2 * i] == hex_spec(rest)[2 * i]);
                assert(hex_spec(bytes)[2 * i + 1] == hex_spec(rest)[2 * i + 1]);
            }
        }
    }
}

/// The little-endian bytes of a length are eight, and give the length back.
pub proof fn lemma_le_u64_injective(a: usize, b: usize)
    ensures
        le_u64(a).len() == 8,
        le_u64(a) == le_u64(b) ==> a == b,
{
    vstd::bytes::lemma_auto_spec_u64_to_from_le_bytes();
    assert(vstd::bytes::spec_u64_from_le_bytes(le_u64(a)) == a as u64);
    assert(vstd::bytes::spec_u64_from_le_bytes(le_u64(b)) == b as u64);
}

/// A length-prefixed field is read back unambiguously: where two byte
/// sequences start with a field each, equal sequences hold equal texts and
/// equal remainders (for texts whose UTF-8 length fits in a `usize`).
pub proof fn lemma_field_injective(a: Seq<char>, b: Seq<char>, ra: Seq<u8>, rb: Seq<u8>)
    requires
        field_spec(a) + ra == field_spec(b) + rb,
        vstd::utf8::encode_utf8(a).len() <= usize::MAX,
        vstd::utf8::encode_utf8(b).len() <= usize::MAX,
    ensures
        a == b,
        ra == rb,
{
    let ea = vstd::utf8::encode_utf8(a);
    let eb = vstd::utf8::encode_utf8(b);
    let x = field_spec(a) + ra;
    lemma_le_u64_injective(ea.len() as usize, eb.len() as usize);
    lemma_le_u64_injective(eb.len() as usize, ea.len() as usize);
    assert(x.subrange(0, 8) =~= le_u64(ea.len() as usize));
    assert((field_spec(b) + rb).subrange(0, 8) =~= le_u64(eb.len() as usize));
    assert(ea.len() == eb.len());
    assert(x.subrange(8, (8 + ea.len()) as int) =~= ea);
    assert((field_spec(b) + rb).subrange(8, (8 + eb.len()) as int) =~= eb);
    vstd::utf8::encode_utf8_decode_utf8(a);
    vstd::utf8::encode_utf8_decode_utf8(b);
    assert(x.subrange((8 + ea.len()) as int, x.len() as int) =~= ra);
    assert((field_spec(b) + rb).subrange((8 + eb.len()) as int, x.len() as int) =~= rb);
}

/// A little-endian length at the front of two equal byte sequences is the
/// same length, and what follows it is the same.
pub proof fn lemma_u64_prefix_injective(a: usize, b: usize, ra: Seq<u8>, rb: Seq<u8>)
    requires
        le_u64(a) + ra == le_u64(b) + rb,
    ensures
        a == b,
        ra == rb,
{
    lemma_le_u64_injective(a, b);
    lemma_le_u64_injective(b, a);
    let x = le_u64(a) + ra;
    assert(x.subrange(0, 8) =~= le_u64(a));
    assert((le_u64(b) + rb).subrange(0, 8) =~= le_u64(b));
    assert(x.subrange(8, x.len() as int) =~= ra);
    assert((le_u64(b) + rb).subrange(8, x.len() as int) =~= rb);
}

/// Appends `bytes` to `out`.
pub fn push_bytes(out: &mut Vec<u8>, bytes: &[u8])
    ensures
        final(out)@ == old(out)@ + bytes@,
{
    let mut i: usize = 0;
    while i < bytes.len()
        invariant
            i <= bytes@.len(),
            out@ == old(out)@ + bytes@.subrange(0, i as int),
        decreases bytes.len() - i,
    {
        out.push(bytes[i]);
        i = i + 1;
        proof {
            assert(out@ =~= old(out)@ + bytes@.subrange(0, i as int));
        }
    }
    proof {
        assert(bytes@.subrange(0, bytes@.len() as int) =~= bytes@);
    }
}

/// Appends a length or index as little-endian `u64`.
pub fn push_u64(out: &mut Vec<u8>, n: usize)
    ensures
        final(out)@ == old(out)@ + le_u64(n),
{
    let bytes = vstd::bytes::u64_to_le_bytes(n as u64);
    push_bytes(out, bytes.as_slice());
}

/// Appends a length-prefixed text field.
pub fn push_field(out: &mut Vec<u8>, s: &str)
    ensures
        final(out)@ == old(out)@ + field_spec(s@),
{
    let len = s.len();
    push_u64(out, len);
    push_bytes(out, s.as_bytes());
    proof {
        assert(final(out)@ =~= old(out)@ + field_spec(s@));
    }
}

} // verus!

verus! {

proof fn lemma_hex_char_injective(a: nat, b: nat)
    requires
        a < 16,
        b < 16,
        hex_char_spec(a) == hex_char_spec(b),
    ensures
        a == b,
{
}

/// Different byte sequences have different hexadecimal encodings.
pub proof fn lemma_hex_injective(a: Seq<u8>, b: Seq<u8>)
    requires
        hex_spec(a) == hex_spec(b),
    ensures
        a == b,
{
    lemma_hex_index(a);
    lemma_hex_index(b);
    assert forall|i: int| 0 <= i < a.len() implies a[i] == b[i] by {
        assert(hex_spec(a)[2 * i] == hex_spec(b)[2 * i]);
        assert(hex_spec(a)[2 * i + 1] == hex_spec(b)[2 * i + 1]);
        lemma_hex_char_injective((a[i] / 16) as nat, (b[i] / 16) as nat);
        lemma_hex_char_injective((a[i] % 16) as nat, (b[i] % 16) as nat);
    }
    assert(a =~= b);
}

} // verus!
