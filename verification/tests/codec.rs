use rustls_cng::codec::p1363_to_der;
use rustls_cng::codec::DER_INTEGER;
use rustls_cng::codec::DER_SEQUENCE;
use rustls_cng::codec::DER_SHORT_LENGTH_MAX;
use rustls_cng::error::CngError;

/// A fixed-width signature of `len` bytes whose halves start with the given
/// bytes and go on with bytes that differ from place to place.
fn signature(len: usize, r_first: u8, s_first: u8) -> Vec<u8> {
    let mut data: Vec<u8> = (0..len).map(|i| (i % 0x7f) as u8 + 1).collect();
    data[0] = r_first;
    data[len / 2] = s_first;
    data
}

#[test]
fn test_p1363_to_der() {
    let p1363 = [1, 2, 3, 4, 5, 6, 7, 8];
    let der = p1363_to_der(&p1363).unwrap();
    assert_eq!(
        der,
        [0x30, 0x0c, 0x02, 0x04, 1, 2, 3, 4, 0x02, 0x04, 5, 6, 7, 8]
    )
}

#[test]
fn test_p1363_to_der_signed() {
    let p1363 = [0x81, 2, 3, 4, 0x85, 6, 7, 8];
    let der = p1363_to_der(&p1363).unwrap();
    assert_eq!(
        der,
        [0x30, 0x0e, 0x02, 0x05, 0, 0x81, 2, 3, 4, 0x02, 0x05, 0, 0x85, 6, 7, 8]
    )
}

#[test]
fn only_r_is_guarded_when_only_its_high_bit_is_set() {
    let der = p1363_to_der(&[0x80, 2, 3, 4, 0x7f, 6, 7, 8]).unwrap();
    assert_eq!(
        der,
        [0x30, 0x0d, 0x02, 0x05, 0, 0x80, 2, 3, 4, 0x02, 0x04, 0x7f, 6, 7, 8]
    );
}

#[test]
fn only_s_is_guarded_when_only_its_high_bit_is_set() {
    let der = p1363_to_der(&[0x7f, 2, 3, 4, 0xff, 6, 7, 8]).unwrap();
    assert_eq!(
        der,
        [0x30, 0x0d, 0x02, 0x04, 0x7f, 2, 3, 4, 0x02, 0x05, 0, 0xff, 6, 7, 8]
    );
}

#[test]
fn leading_zero_bytes_are_kept() {
    let der = p1363_to_der(&[0, 0, 3, 4, 0, 0x90, 7, 8]).unwrap();
    assert_eq!(
        der,
        [0x30, 0x0c, 0x02, 0x04, 0, 0, 3, 4, 0x02, 0x04, 0, 0x90, 7, 8]
    );
}

#[test]
fn shortest_signature_has_one_byte_for_each_integer() {
    assert_eq!(
        p1363_to_der(&[0x05, 0x80]).unwrap(),
        [0x30, 0x07, 0x02, 0x01, 0x05, 0x02, 0x02, 0x00, 0x80]
    );
}

#[test]
fn output_is_longer_by_six_and_by_one_for_each_high_bit() {
    let mut len: usize = 8;
    while len <= 120 {
        for (r_first, s_first, guards) in [
            (0x01u8, 0x01u8, 0usize),
            (0x80, 0x7f, 1),
            (0x7f, 0x80, 1),
            (0xff, 0xff, 2),
        ] {
            let data = signature(len, r_first, s_first);
            let der = p1363_to_der(&data).unwrap();
            assert_eq!(der.len(), len + 2 + 4 + guards);
            assert_eq!(der[0], DER_SEQUENCE);
            assert_eq!(der[1] as usize, der.len() - 2);
        }
        len += 8;
    }
}

#[test]
fn p256_signature_converts() {
    let data = signature(64, 0xab, 0x12);
    let der = p1363_to_der(&data).unwrap();
    assert_eq!(der.len(), 71);
    assert_eq!(&der[..5], &[0x30, 69, 0x02, 33, 0]);
    assert_eq!(&der[5..37], &data[..32]);
    assert_eq!(&der[37..39], &[0x02, 32]);
    assert_eq!(&der[39..], &data[32..]);
}

#[test]
fn p384_signature_converts() {
    let data = signature(96, 0x12, 0xab);
    let der = p1363_to_der(&data).unwrap();
    assert_eq!(der.len(), 103);
    assert_eq!(&der[..4], &[0x30, 101, 0x02, 48]);
    assert_eq!(&der[4..52], &data[..48]);
    assert_eq!(&der[52..55], &[0x02, 49, 0]);
    assert_eq!(&der[55..], &data[48..]);
}

#[test]
fn empty_signature_is_refused() {
    assert_eq!(p1363_to_der(&[]), Err(CngError::InvalidSignatureLength));
}

#[test]
fn odd_length_is_refused() {
    assert_eq!(p1363_to_der(&[1]), Err(CngError::InvalidSignatureLength));
    assert_eq!(
        p1363_to_der(&[1, 2, 3, 4, 5, 6, 7]),
        Err(CngError::InvalidSignatureLength)
    );
    assert_eq!(
        p1363_to_der(&signature(65, 1, 1)),
        Err(CngError::InvalidSignatureLength)
    );
}

#[test]
fn p521_signature_is_refused() {
    assert_eq!(
        p1363_to_der(&signature(132, 1, 1)),
        Err(CngError::InvalidSignatureLength)
    );
}

#[test]
fn longest_body_is_127_bytes() {
    assert_eq!(DER_SHORT_LENGTH_MAX, 127);
    // 122 bytes and no guard: a body of 126 bytes.
    let der = p1363_to_der(&signature(122, 1, 1)).unwrap();
    assert_eq!(der.len(), 128);
    assert_eq!(der[1], 126);
    // 122 bytes and one guard: a body of 127 bytes, the longest there is.
    let der = p1363_to_der(&signature(122, 0x80, 1)).unwrap();
    assert_eq!(der.len(), 129);
    assert_eq!(der[1], 127);
    let der = p1363_to_der(&signature(122, 1, 0x80)).unwrap();
    assert_eq!(der[1], 127);
    // 122 bytes and two guards: a body of 128 bytes, one too many.
    assert_eq!(
        p1363_to_der(&signature(122, 0x80, 0x80)),
        Err(CngError::InvalidSignatureLength)
    );
    // 124 bytes: a body of 128 bytes at least.
    assert_eq!(
        p1363_to_der(&signature(124, 1, 1)),
        Err(CngError::InvalidSignatureLength)
    );
    assert_eq!(
        p1363_to_der(&signature(256, 1, 1)),
        Err(CngError::InvalidSignatureLength)
    );
}

/// Reads one DER integer with a single-byte length at the start of `bytes`:
/// its contents and what follows it.
fn read_integer(bytes: &[u8]) -> (&[u8], &[u8]) {
    assert_eq!(bytes[0], DER_INTEGER);
    let len: usize = bytes[1] as usize;
    assert!(len >= 1 && len <= 127);
    (&bytes[2..2 + len], &bytes[2 + len..])
}

/// The bytes without their leading zero bytes.
fn magnitude(bytes: &[u8]) -> &[u8] {
    let zeros: usize = bytes.iter().take_while(|b| **b == 0).count();
    &bytes[zeros..]
}

#[test]
fn output_reads_back_as_two_non_negative_integers_of_the_same_value() {
    for len in [2usize, 8, 64, 96, 120] {
        for (r_first, s_first) in [(0u8, 0u8), (0x01, 0x80), (0x80, 0x01), (0xff, 0x80)] {
            let data = signature(len, r_first, s_first);
            let der = p1363_to_der(&data).unwrap();
            assert_eq!(der[0], DER_SEQUENCE);
            assert!(der[1] <= 127);
            assert_eq!(der[1] as usize, der.len() - 2);
            let (r, rest) = read_integer(&der[2..]);
            let (s, rest) = read_integer(rest);
            assert!(rest.is_empty());
            assert!(r[0] < 0x80);
            assert!(s[0] < 0x80);
            assert_eq!(magnitude(r), magnitude(&data[..len / 2]));
            assert_eq!(magnitude(s), magnitude(&data[len / 2..]));
        }
    }
}
