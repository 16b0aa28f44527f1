//! Signature schemes of TLS, and what each of them asks of a key.

use vstd::prelude::*;
use crate::key::AlgorithmGroup;
use crate::key::SignaturePadding;

verus! {

/// A signature scheme that a TLS peer may offer.
///
/// The eight schemes that the bridge signs with have a variant each. Any
/// other scheme is carried by its code in the TLS registry and is never
/// chosen.
#[allow(non_camel_case_types)]
#[derive(Clone, Copy, Debug, PartialEq, Eq, Structural)]
pub enum SignatureScheme {
    /// RSA, PKCS#1 v1.5 padding, SHA-256.
    RSA_PKCS1_SHA256,
    /// RSA, PKCS#1 v1.5 padding, SHA-384.
    RSA_PKCS1_SHA384,
    /// RSA, PKCS#1 v1.5 padding, SHA-512.
    RSA_PKCS1_SHA512,
    /// RSA, PSS padding, SHA-256.
    RSA_PSS_SHA256,
    /// RSA, PSS padding, SHA-384.
    RSA_PSS_SHA384,
    /// RSA, PSS padding, SHA-512.
    RSA_PSS_SHA512,
    /// ECDSA on the curve P-256, SHA-256.
    ECDSA_NISTP256_SHA256,
    /// ECDSA on the curve P-384, SHA-384.
    ECDSA_NISTP384_SHA384,
    /// A scheme that the bridge does not sign with, by its registry code.
    Other(u16),
}

impl SignatureScheme {
    /// The code of the scheme in the TLS registry.
    pub open spec fn spec_code(self) -> u16 {
        match self {
            SignatureScheme::RSA_PKCS1_SHA256 => 0x0401,
            SignatureScheme::RSA_PKCS1_SHA384 => 0x0501,
            SignatureScheme::RSA_PKCS1_SHA512 => 0x0601,
            SignatureScheme::RSA_PSS_SHA256 => 0x0804,
            SignatureScheme::RSA_PSS_SHA384 => 0x0805,
            SignatureScheme::RSA_PSS_SHA512 => 0x0806,
            SignatureScheme::ECDSA_NISTP256_SHA256 => 0x0403,
            SignatureScheme::ECDSA_NISTP384_SHA384 => 0x0503,
            SignatureScheme::Other(code) => code,
        }
    }

    /// The scheme that a code of the TLS registry stands for: one of the
    /// eight that the bridge signs with where the code is theirs, and the
    /// code itself otherwise.
    pub open spec fn spec_from_code(code: u16) -> SignatureScheme {
        if code == 0x0401 {
            SignatureScheme::RSA_PKCS1_SHA256
        } else if code == 0x0501 {
            SignatureScheme::RSA_PKCS1_SHA384
        } else if code == 0x0601 {
            SignatureScheme::RSA_PKCS1_SHA512
        } else if code == 0x0804 {
            SignatureScheme::RSA_PSS_SHA256
        } else if code == 0x0805 {
            SignatureScheme::RSA_PSS_SHA384
        } else if code == 0x0806 {
            SignatureScheme::RSA_PSS_SHA512
        } else if code == 0x0403 {
            SignatureScheme::ECDSA_NISTP256_SHA256
        } else if code == 0x0503 {
            SignatureScheme::ECDSA_NISTP384_SHA384
        } else {
            SignatureScheme::Other(code)
        }
    }

    /// The code of the scheme in the TLS registry.
    #[verifier::when_used_as_spec(spec_code)]
    pub fn code(self) -> (code: u16)
        ensures
            code == self.code(),
    {
        match self {
            SignatureScheme::RSA_PKCS1_SHA256 => 0x0401,
            SignatureScheme::RSA_PKCS1_SHA384 => 0x0501,
            SignatureScheme::RSA_PKCS1_SHA512 => 0x0601,
            SignatureScheme::RSA_PSS_SHA256 => 0x0804,
            SignatureScheme::RSA_PSS_SHA384 => 0x0805,
            SignatureScheme::RSA_PSS_SHA512 => 0x0806,
            SignatureScheme::ECDSA_NISTP256_SHA256 => 0x0403,
            SignatureScheme::ECDSA_NISTP384_SHA384 => 0x0503,
            SignatureScheme::Other(code) => code,
        }
    }

    /// The scheme that a code of the TLS registry stands for. A code of one
    /// of the eight schemes that the bridge signs with gives that scheme,
    /// never [`SignatureScheme::Other`].
    #[verifier::when_used_as_spec(spec_from_code)]
    pub fn from_code(code: u16) -> (scheme: SignatureScheme)
        ensures
            scheme == SignatureScheme::from_code(code),
    {
        match code {
            0x0401 => SignatureScheme::RSA_PKCS1_SHA256,
            0x0501 => SignatureScheme::RSA_PKCS1_SHA384,
            0x0601 => SignatureScheme::RSA_PKCS1_SHA512,
            0x0804 => SignatureScheme::RSA_PSS_SHA256,
            0x0805 => SignatureScheme::RSA_PSS_SHA384,
            0x0806 => SignatureScheme::RSA_PSS_SHA512,
            0x0403 => SignatureScheme::ECDSA_NISTP256_SHA256,
            0x0503 => SignatureScheme::ECDSA_NISTP384_SHA384,
            _ => SignatureScheme::Other(code),
        }
    }
}

/// The kind of key that a TLS stack takes a signing key for.
#[derive(Clone, Copy, Debug, PartialEq, Eq, Structural)]
pub enum SignatureAlgorithm {
    /// An RSA key.
    RSA,
    /// An elliptic-curve key.
    ECDSA,
}

/// A hash function that the platform computes.
#[derive(Clone, Copy, Debug, PartialEq, Eq, Structural)]
pub enum HashAlgorithm {
    /// SHA-256.
    Sha256,
    /// SHA-384.
    Sha384,
    /// SHA-512.
    Sha512,
}

impl HashAlgorithm {
    /// The number of bytes in a digest of this algorithm.
    pub open spec fn spec_digest_len(self) -> usize {
        match self {
            HashAlgorithm::Sha256 => 32,
            HashAlgorithm::Sha384 => 48,
            HashAlgorithm::Sha512 => 64,
        }
    }

    /// The number of bytes in a digest of this algorithm: 32, 48 or 64.
    #[verifier::when_used_as_spec(spec_digest_len)]
    pub fn digest_len(self) -> (len: usize)
        ensures
            len == self.digest_len(),
    {
        match self {
            HashAlgorithm::Sha256 => 32,
            HashAlgorithm::Sha384 => 48,
            HashAlgorithm::Sha512 => 64,
        }
    }

    /// The handle by which the platform's hash primitive knows this
    /// algorithm: one of its predefined pseudo-handles, which need not be
    /// opened or closed.
    pub fn alg_handle(self) -> (handle: usize)
        ensures
            handle == match self {
                HashAlgorithm::Sha256 => 0x41usize,
                HashAlgorithm::Sha384 => 0x51usize,
                HashAlgorithm::Sha512 => 0x61usize,
            },
    {
        match self {
            HashAlgorithm::Sha256 => 0x41,
            HashAlgorithm::Sha384 => 0x51,
            HashAlgorithm::Sha512 => 0x61,
        }
    }
}

/// The hash function and the padding that a scheme signs with, or `None` for
/// a scheme that the bridge does not sign with.
pub open spec fn hash_and_padding(scheme: SignatureScheme) -> Option<
    (HashAlgorithm, SignaturePadding),
> {
    match scheme {
        SignatureScheme::RSA_PKCS1_SHA256 => Some((HashAlgorithm::Sha256, SignaturePadding::Pkcs1)),
        SignatureScheme::RSA_PKCS1_SHA384 => Some((HashAlgorithm::Sha384, SignaturePadding::Pkcs1)),
        SignatureScheme::RSA_PKCS1_SHA512 => Some((HashAlgorithm::Sha512, SignaturePadding::Pkcs1)),
        SignatureScheme::RSA_PSS_SHA256 => Some((HashAlgorithm::Sha256, SignaturePadding::Pss)),
        SignatureScheme::RSA_PSS_SHA384 => Some((HashAlgorithm::Sha384, SignaturePadding::Pss)),
        SignatureScheme::RSA_PSS_SHA512 => Some((HashAlgorithm::Sha512, SignaturePadding::Pss)),
        SignatureScheme::ECDSA_NISTP256_SHA256 => Some(
            (HashAlgorithm::Sha256, SignaturePadding::Unpadded),
        ),
        SignatureScheme::ECDSA_NISTP384_SHA384 => Some(
            (HashAlgorithm::Sha384, SignaturePadding::Unpadded),
        ),
        SignatureScheme::Other(_) => None,
    }
}

/// The schemes that a key of the given group and length signs with, in the
/// key's own order.
///
/// An RSA key signs with all six RSA schemes, whatever its length, PKCS#1
/// before PSS. An elliptic-curve key signs with the one scheme of its curve,
/// which its length tells: 256 bits for P-256, 384 bits for P-384. An
/// elliptic-curve key of another length signs with nothing.
pub open spec fn supported_schemes_of(group: AlgorithmGroup, bits: u32) -> Seq<SignatureScheme> {
    match group {
        AlgorithmGroup::Rsa => seq![
            SignatureScheme::RSA_PKCS1_SHA256,
            SignatureScheme::RSA_PKCS1_SHA384,
            SignatureScheme::RSA_PKCS1_SHA512,
            SignatureScheme::RSA_PSS_SHA256,
            SignatureScheme::RSA_PSS_SHA384,
            SignatureScheme::RSA_PSS_SHA512,
        ],
        AlgorithmGroup::Ecdsa | AlgorithmGroup::Ecdh => if bits == 256 {
            seq![SignatureScheme::ECDSA_NISTP256_SHA256]
        } else if bits == 384 {
            seq![SignatureScheme::ECDSA_NISTP384_SHA384]
        } else {
            Seq::empty()
        },
    }
}

/// Whether a key of the given group and length signs with `scheme`.
pub open spec fn supports(group: AlgorithmGroup, bits: u32, scheme: SignatureScheme) -> bool {
    match group {
        AlgorithmGroup::Rsa => hash_and_padding(scheme) is Some && hash_and_padding(
            scheme,
        )->Some_0.1 != SignaturePadding::Unpadded,
        AlgorithmGroup::Ecdsa | AlgorithmGroup::Ecdh => (bits == 256 && scheme
            == SignatureScheme::ECDSA_NISTP256_SHA256) || (bits == 384 && scheme
            == SignatureScheme::ECDSA_NISTP384_SHA384),
    }
}

/// Whether `i` is the index of the first scheme in `offered` that is among
/// `supported`.
pub open spec fn is_first_supported(
    offered: Seq<SignatureScheme>,
    supported: Seq<SignatureScheme>,
    i: int,
) -> bool {
    &&& 0 <= i < offered.len()
    &&& supported.contains(offered[i])
    &&& forall|j: int| 0 <= j < i ==> !supported.contains(#[trigger] offered[j])
}

/// An RSA key supports exactly six schemes, the same for every length and
/// in the same order; an elliptic-curve key supports exactly one scheme
/// where its length is 256 or 384, and none otherwise; and a key for key
/// agreement supports what a key for signing of the same length does.
pub proof fn lemma_supported_schemes_count(group: AlgorithmGroup, bits: u32)
    ensures
        group == AlgorithmGroup::Rsa ==> supported_schemes_of(group, bits).len() == 6
            && supported_schemes_of(group, bits) == supported_schemes_of(group, 0),
        group != AlgorithmGroup::Rsa && (bits == 256 || bits == 384) ==> supported_schemes_of(
            group,
            bits,
        ).len() == 1,
        group != AlgorithmGroup::Rsa && bits != 256 && bits != 384 ==> supported_schemes_of(
            group,
            bits,
        ).len() == 0,
        supported_schemes_of(AlgorithmGroup::Ecdh, bits) == supported_schemes_of(
            AlgorithmGroup::Ecdsa,
            bits,
        ),
{
}

/// The list of the schemes that a key supports holds exactly the schemes
/// that the key signs with: for an RSA key the schemes with an RSA padding,
/// for an elliptic-curve key the scheme of its curve.
pub proof fn lemma_supported_schemes_hold(group: AlgorithmGroup, bits: u32, scheme: SignatureScheme)
    ensures
        supported_schemes_of(group, bits).contains(scheme) == supports(group, bits, scheme),
{
    let list = supported_schemes_of(group, bits);
    if supports(group, bits, scheme) {
        match scheme {
            SignatureScheme::RSA_PKCS1_SHA256 => assert(list[0] == scheme),
            SignatureScheme::RSA_PKCS1_SHA384 => assert(list[1] == scheme),
            SignatureScheme::RSA_PKCS1_SHA512 => assert(list[2] == scheme),
            SignatureScheme::RSA_PSS_SHA256 => assert(list[3] == scheme),
            SignatureScheme::RSA_PSS_SHA384 => assert(list[4] == scheme),
            SignatureScheme::RSA_PSS_SHA512 => assert(list[5] == scheme),
            SignatureScheme::ECDSA_NISTP256_SHA256 => assert(list[0] == scheme),
            SignatureScheme::ECDSA_NISTP384_SHA384 => assert(list[0] == scheme),
            SignatureScheme::Other(_) => {},
        }
    }
}

/// Every scheme that a key supports has a hash function and a padding: RSA
/// padding for an RSA key, none for an elliptic-curve key.
pub proof fn lemma_supported_scheme_signs(group: AlgorithmGroup, bits: u32, scheme: SignatureScheme)
    requires
        supported_schemes_of(group, bits).contains(scheme),
    ensures
        hash_and_padding(scheme) is Some,
        (group == AlgorithmGroup::Rsa) == (hash_and_padding(scheme)->Some_0.1
            != SignaturePadding::Unpadded),
{
}

/// Every code stands for a scheme with that code. A scheme comes back from
/// its code unless it is written as [`SignatureScheme::Other`] with the code
/// of one of the eight schemes that have a variant of their own; a scheme
/// that was made from a code always comes back. A code gives a scheme with
/// a hash function and a padding exactly where it gives one of the eight.
pub proof fn lemma_scheme_codes(code: u16, scheme: SignatureScheme)
    ensures
        SignatureScheme::from_code(code).code() == code,
        SignatureScheme::from_code(scheme.code()) == scheme <==> !(scheme is Other
            && hash_and_padding(SignatureScheme::from_code(scheme.code())) is Some),
        SignatureScheme::from_code(SignatureScheme::from_code(code).code())
            == SignatureScheme::from_code(code),
        hash_and_padding(SignatureScheme::from_code(code)) is Some
            <==> SignatureScheme::from_code(code) !is Other,
{
}

/// At most one index is that of the first supported scheme: which scheme is
/// chosen depends on the order of `offered` alone, not on that of
/// `supported`, and a later match never displaces an earlier one.
pub proof fn lemma_first_supported_unique(
    offered: Seq<SignatureScheme>,
    supported: Seq<SignatureScheme>,
    i: int,
    j: int,
)
    requires
        is_first_supported(offered, supported, i),
        is_first_supported(offered, supported, j),
    ensures
        i == j,
{
}

} // verus!
