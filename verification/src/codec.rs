//! Conversion of elliptic-curve signatures from the fixed-width form that the
//! platform produces to the DER form that TLS carries.
//!
//! The platform returns the two integers `r` and `s` of a signature as one
//! byte string: both big-endian, both of the same width, one after the other.
//! TLS wants `SEQUENCE { INTEGER r, INTEGER s }`. A DER integer is signed, so
//! an integer whose leading byte has its high bit set gets one zero byte in
//! front. Nothing else is added or removed: leading zero bytes of the input
//! stay where they are.

use vstd::prelude::*;
use crate::error::CngError;

verus! {

/// Tag byte of a DER `SEQUENCE`.
pub const DER_SEQUENCE: u8 = 0x30;

/// Tag byte of a DER `INTEGER`.
pub const DER_INTEGER: u8 = 0x02;

/// Largest length that fits the single-byte form of a DER length.
pub const DER_SHORT_LENGTH_MAX: usize = 127;

/// The first half of a fixed-width signature: the integer `r`.
pub open spec fn p1363_r(data: Seq<u8>) -> Seq<u8> {
    data.subrange(0, data.len() as int / 2)
}

/// The second half of a fixed-width signature: the integer `s`.
pub open spec fn p1363_s(data: Seq<u8>) -> Seq<u8> {
    data.subrange(data.len() as int / 2, data.len() as int)
}

/// Whether a big-endian unsigned integer would read as negative in DER,
/// because the high bit of its leading byte is set.
pub open spec fn high_bit_set(n: Seq<u8>) -> bool {
    n.len() > 0 && n[0] >= 0x80
}

/// What stands in front of a big-endian unsigned integer inside a DER
/// integer: one zero byte where the high bit is set, nothing otherwise.
pub open spec fn sign_guard(n: Seq<u8>) -> Seq<u8> {
    if high_bit_set(n) {
        seq![0u8]
    } else {
        Seq::empty()
    }
}

/// The number of bytes that stand in front of a big-endian unsigned integer
/// inside a DER integer: one where the high bit is set, none otherwise.
pub open spec fn guard_len(n: Seq<u8>) -> nat {
    if high_bit_set(n) {
        1
    } else {
        0
    }
}

/// The contents of the DER integer that holds the big-endian unsigned
/// integer `n`.
pub open spec fn der_integer_contents(n: Seq<u8>) -> Seq<u8> {
    sign_guard(n) + n
}

/// The DER integer that holds the big-endian unsigned integer `n`: tag,
/// length and contents. Meant for contents of at most 127 bytes.
pub open spec fn der_integer(n: Seq<u8>) -> Seq<u8> {
    seq![DER_INTEGER, der_integer_contents(n).len() as u8] + der_integer_contents(n)
}

/// The number of bytes that the two DER integers of a signature take
/// together, which is the length that the enclosing sequence announces.
pub open spec fn der_body_len(data: Seq<u8>) -> nat {
    data.len() + 4 + guard_len(p1363_r(data)) + guard_len(p1363_s(data))
}

/// Whether `data` is a fixed-width signature that can be converted: two
/// integers of the same width, at least one byte each, whose encoding fits a
/// sequence with a single-byte length.
pub open spec fn is_convertible(data: Seq<u8>) -> bool {
    &&& data.len() >= 2
    &&& data.len() % 2 == 0
    &&& der_body_len(data) <= DER_SHORT_LENGTH_MAX
}

/// The DER form of the fixed-width signature `data`.
pub open spec fn der_signature(data: Seq<u8>) -> Seq<u8> {
    seq![DER_SEQUENCE, der_body_len(data) as u8] + der_integer(p1363_r(data)) + der_integer(
        p1363_s(data),
    )
}

/// The number that the bytes `n` denote when read as a big-endian unsigned
/// integer.
pub open spec fn be_value(n: Seq<u8>) -> nat
    decreases n.len(),
{
    if n.len() == 0 {
        0
    } else {
        be_value(n.drop_last()) * 256 + n.last() as nat
    }
}

/// The contents of the DER integer that starts at index `at` of `bytes`, if
/// one starts there: the integer tag, a single-byte length of at least one,
/// that many bytes of contents inside `bytes`, and a leading byte of the
/// contents whose high bit is clear, so that the integer is not negative.
pub open spec fn der_integer_at(bytes: Seq<u8>, at: int) -> Option<Seq<u8>> {
    if 0 <= at && at + 2 < bytes.len() && bytes[at] == DER_INTEGER && 1 <= bytes[at + 1]
        <= DER_SHORT_LENGTH_MAX && at + 2 + bytes[at + 1] <= bytes.len() && bytes[at + 2] < 0x80 {
        Some(bytes.subrange(at + 2, at + 2 + bytes[at + 1]))
    } else {
        None
    }
}

/// The contents of the two integers of a DER signature, if `bytes` is one: a
/// sequence with a single-byte length that covers the rest of `bytes`, made
/// of exactly two non-negative DER integers.
pub open spec fn der_signature_integers(bytes: Seq<u8>) -> Option<(Seq<u8>, Seq<u8>)> {
    if bytes.len() >= 2 && bytes[0] == DER_SEQUENCE && bytes[1] <= DER_SHORT_LENGTH_MAX
        && bytes.len() == 2 + bytes[1] {
        match der_integer_at(bytes, 2) {
            Some(r) => match der_integer_at(bytes, 4 + r.len() as int) {
                Some(s) => if 6 + r.len() + s.len() == bytes.len() {
                    Some((r, s))
                } else {
                    None
                },
                None => None,
            },
            None => None,
        }
    } else {
        None
    }
}

/// The DER form of a convertible signature is longer than the signature by
/// the two bytes that open the sequence, the two bytes that open each of the
/// two integers, and one byte for each of `r` and `s` whose high bit is set.
pub proof fn lemma_der_signature_len(data: Seq<u8>)
    requires
        is_convertible(data),
    ensures
        der_signature(data).len() == data.len() + 2 + 4 + guard_len(p1363_r(data)) + guard_len(
            p1363_s(data),
        ),
        der_signature(data).len() == der_body_len(data) + 2,
        der_signature(data).len() <= DER_SHORT_LENGTH_MAX + 2,
{
}

/// A zero byte in front of a big-endian unsigned integer does not change
/// the number that it denotes, so the contents of a DER integer denote the
/// number that went in.
pub proof fn lemma_der_integer_keeps_value(n: Seq<u8>)
    ensures
        be_value(der_integer_contents(n)) == be_value(n),
    decreases n.len(),
{
    if high_bit_set(n) {
        lemma_zero_prefix_keeps_value(n);
    } else {
        assert(der_integer_contents(n) =~= n);
    }
}

/// The number denoted by `n` with one zero byte in front is the number
/// denoted by `n`.
proof fn lemma_zero_prefix_keeps_value(n: Seq<u8>)
    ensures
        be_value(seq![0u8] + n) == be_value(n),
    decreases n.len(),
{
    let padded = seq![0u8] + n;
    if n.len() == 0 {
        assert(padded.drop_last() =~= Seq::<u8>::empty());
        assert(be_value(padded.drop_last()) == 0);
    } else {
        assert(padded.drop_last() =~= seq![0u8] + n.drop_last());
        assert(padded.last() == n.last());
        lemma_zero_prefix_keeps_value(n.drop_last());
    }
}

/// The DER form of a convertible signature reads back as a sequence of
/// exactly two non-negative integers, which denote the numbers `r` and `s`
/// of the signature.
pub proof fn lemma_der_signature_reads_back(data: Seq<u8>)
    requires
        is_convertible(data),
    ensures
        der_signature_integers(der_signature(data)) == Some(
            (der_integer_contents(p1363_r(data)), der_integer_contents(p1363_s(data))),
        ),
        be_value(der_integer_contents(p1363_r(data))) == be_value(p1363_r(data)),
        be_value(der_integer_contents(p1363_s(data))) == be_value(p1363_s(data)),
{
    let r = p1363_r(data);
    let s = p1363_s(data);
    let rc = der_integer_contents(r);
    let sc = der_integer_contents(s);
    let out = der_signature(data);
    lemma_der_integer_keeps_value(r);
    lemma_der_integer_keeps_value(s);
    assert(out.len() == 6 + rc.len() + sc.len());
    assert(out[2] == DER_INTEGER);
    assert(out[3] == rc.len() as u8);
    assert(out[4] == rc[0]);
    assert(out.subrange(4, 4 + rc.len() as int) =~= rc);
    assert(der_integer_at(out, 2) == Some(rc));
    let at: int = 4 + rc.len() as int;
    assert(out[at] == DER_INTEGER);
    assert(out[at + 1] == sc.len() as u8);
    assert(out[at + 2] == sc[0]);
    assert(out.subrange(at + 2, at + 2 + sc.len()) =~= sc);
    assert(der_integer_at(out, at) == Some(sc));
}

/// Appends the DER integer for the big-endian unsigned integer `n` to `buf`.
fn push_der_integer(buf: &mut Vec<u8>, n: &[u8])
    requires
        0 < n@.len() < DER_SHORT_LENGTH_MAX,
    ensures
        final(buf)@ == old(buf)@ + der_integer(n@),
{
    let guarded: bool = n[0] >= 0x80;
    let contents_len: usize = if guarded {
        n.len() + 1
    } else {
        n.len()
    };
    buf.push(DER_INTEGER);
    buf.push(contents_len as u8);
    if guarded {
        buf.push(0u8);
    }
    buf.extend_from_slice(n);
    assert(buf@ =~= old(buf)@ + der_integer(n@));
}

/// Converts a signature from the fixed-width form to DER.
///
/// `data` holds `r` in its first half and `s` in its second. The result is
/// the sequence of the two as DER integers, each with a zero byte in front
/// where its high bit is set, so that it is longer than `data` by six bytes
/// and by one more for each such zero byte. An input that is empty, of odd
/// length, or whose encoding would need more than 127 bytes inside the
/// sequence is refused with [`CngError::InvalidSignatureLength`].
pub fn p1363_to_der(data: &[u8]) -> (result: Result<Vec<u8>, CngError>)
    ensures
        is_convertible(data@) ==> result is Ok && result->Ok_0@ == der_signature(data@),
        is_convertible(data@) ==> result->Ok_0@.len() == data@.len() + 2 + 4 + guard_len(
            p1363_r(data@),
        ) + guard_len(p1363_s(data@)),
        !is_convertible(data@) ==> result == Err::<Vec<u8>, CngError>(
            CngError::InvalidSignatureLength,
        ),
{
    let len: usize = data.len();
    if len < 2 || len % 2 != 0 || len > DER_SHORT_LENGTH_MAX {
        return Err(CngError::InvalidSignatureLength);
    }
    let half: usize = len / 2;
    let r = vstd::slice::slice_subrange(data, 0, half);
    let s = vstd::slice::slice_subrange(data, half, len);
    let r_guard: usize = if r[0] >= 0x80 {
        1
    } else {
        0
    };
    let s_guard: usize = if s[0] >= 0x80 {
        1
    } else {
        0
    };
    let body_len: usize = len + 4 + r_guard + s_guard;
    if body_len > DER_SHORT_LENGTH_MAX {
        return Err(CngError::InvalidSignatureLength);
    }
    let mut buf: Vec<u8> = Vec::with_capacity(body_len + 2);
    buf.push(DER_SEQUENCE);
    buf.push(body_len as u8);
    push_der_integer(&mut buf, r);
    push_der_integer(&mut buf, s);
    assert(buf@ =~= der_signature(data@));
    Ok(buf)
}

} // verus!
