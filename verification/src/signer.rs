//! The signing key that a TLS stack is handed, and the signer that it yields
//! for one handshake.
//!
//! A signature is made in turns. The signer says which hash function to run
//! ([`CngSigner::hash_params`]); the caller runs it natively and reports back
//! ([`CngSigner::hash`]); the caller has the key sign the digest and reports
//! back again ([`CngSigner::sign`]), which yields the bytes for the wire.

use vstd::prelude::*;
use crate::codec::der_signature;
use crate::codec::is_convertible;
use crate::codec::p1363_to_der;
use crate::error::CngError;
use crate::key::AlgorithmGroup;
use crate::key::NCryptKey;
use crate::key::SignaturePadding;
use crate::scheme::hash_and_padding;
use crate::scheme::is_first_supported;
use crate::scheme::supported_schemes_of;
use crate::scheme::HashAlgorithm;
use crate::scheme::SignatureAlgorithm;
use crate::scheme::SignatureScheme;

verus! {

/// A native key together with what decides how it signs: its algorithm group
/// and its length in bits. Nothing in it changes once it is made.
#[derive(Clone, Copy, Debug)]
pub struct CngSigningKey {
    key: NCryptKey,
    algorithm_group: AlgorithmGroup,
    bits: u32,
}

/// A native key bound to the one scheme that it signs with in a handshake.
#[derive(Clone, Copy, Debug)]
pub struct CngSigner {
    key: NCryptKey,
    scheme: SignatureScheme,
}

/// What [`CngSigner::sign`] returns for a signer bound to `scheme`, given what
/// the key's sign operation returned.
///
/// A scheme without a hash function and padding fails first. A failure of
/// the key comes next, with the platform's code. A signature made without
/// padding is converted from fixed-width form to DER, which fails where the
/// signature is not convertible. Any other signature is returned as it is.
pub open spec fn signed_bytes(scheme: SignatureScheme, signature: Result<Seq<u8>, u32>) -> Result<
    Seq<u8>,
    CngError,
> {
    match hash_and_padding(scheme) {
        None => Err(CngError::UnsupportedScheme),
        Some((_, padding)) => match signature {
            Err(code) => Err(CngError::SigningError(code)),
            Ok(raw) => if padding != SignaturePadding::Unpadded {
                Ok(raw)
            } else if is_convertible(raw) {
                Ok(der_signature(raw))
            } else {
                Err(CngError::InvalidSignatureLength)
            },
        },
    }
}

/// The bytes of a result, as a sequence.
pub open spec fn bytes_of<E>(result: Result<Vec<u8>, E>) -> Result<Seq<u8>, E> {
    match result {
        Ok(bytes) => Ok(bytes@),
        Err(e) => Err(e),
    }
}

/// Whether `scheme` occurs in `schemes`.
fn contains_scheme(schemes: &Vec<SignatureScheme>, scheme: SignatureScheme) -> (found: bool)
    ensures
        found == schemes@.contains(scheme),
{
    let mut i: usize = 0;
    while i < schemes.len()
        invariant
            i <= schemes@.len(),
            forall|j: int| 0 <= j < i ==> schemes@[j] != scheme,
        decreases schemes@.len() - i,
    {
        if schemes[i] == scheme {
            return true;
        }
        i += 1;
    }
    false
}

impl CngSigningKey {
    /// The native key.
    pub closed spec fn spec_key(&self) -> &NCryptKey {
        &self.key
    }

    /// The algorithm group of the key.
    pub closed spec fn spec_algorithm_group(&self) -> &AlgorithmGroup {
        &self.algorithm_group
    }

    /// The length of the key in bits.
    pub closed spec fn spec_bits(&self) -> u32 {
        self.bits
    }

    /// Makes a signing key of a native key and of what the key answered when
    /// it was asked for its algorithm group and for its length.
    ///
    /// The group is asked for first: where that failed, its error code is the
    /// one reported, whatever the length query gave. Either failure is a
    /// [`CngError::KeyIntrospectionError`].
    pub fn new(key: NCryptKey, group: Result<AlgorithmGroup, u32>, bits: Result<u32, u32>) -> (result:
        Result<Self, CngError>)
        ensures
            match (group, bits) {
                (Err(code), _) => result is Err && result->Err_0 == CngError::KeyIntrospectionError(
                    code,
                ),
                (Ok(_), Err(code)) => result is Err && result->Err_0
                    == CngError::KeyIntrospectionError(code),
                (Ok(g), Ok(b)) => result is Ok && *result->Ok_0.key() == key
                    && *result->Ok_0.algorithm_group() == g && result->Ok_0.bits() == b,
            },
    {
        let algorithm_group = match group {
            Ok(g) => g,
            Err(code) => {
                return Err(CngError::KeyIntrospectionError(code));
            },
        };
        let bits = match bits {
            Ok(b) => b,
            Err(code) => {
                return Err(CngError::KeyIntrospectionError(code));
            },
        };
        Ok(CngSigningKey { key, algorithm_group, bits })
    }

    /// The native key.
    #[verifier::when_used_as_spec(spec_key)]
    pub fn key(&self) -> (key: &NCryptKey)
        ensures
            key == self.key(),
    {
        &self.key
    }

    /// The algorithm group of the key.
    #[verifier::when_used_as_spec(spec_algorithm_group)]
    pub fn algorithm_group(&self) -> (group: &AlgorithmGroup)
        ensures
            group == self.algorithm_group(),
    {
        &self.algorithm_group
    }

    /// The length of the key in bits.
    #[verifier::when_used_as_spec(spec_bits)]
    pub fn bits(&self) -> (bits: u32)
        ensures
            bits == self.bits(),
    {
        self.bits
    }

    /// The schemes that this key signs with, in the key's own order: see
    /// [`supported_schemes_of`].
    pub fn supported_schemes(&self) -> (schemes: Vec<SignatureScheme>)
        ensures
            schemes@ == supported_schemes_of(*self.algorithm_group(), self.bits()),
    {
        let mut schemes: Vec<SignatureScheme> = Vec::new();
        match self.algorithm_group {
            AlgorithmGroup::Rsa => {
                schemes.push(SignatureScheme::RSA_PKCS1_SHA256);
                schemes.push(SignatureScheme::RSA_PKCS1_SHA384);
                schemes.push(SignatureScheme::RSA_PKCS1_SHA512);
                schemes.push(SignatureScheme::RSA_PSS_SHA256);
                schemes.push(SignatureScheme::RSA_PSS_SHA384);
                schemes.push(SignatureScheme::RSA_PSS_SHA512);
            },
            AlgorithmGroup::Ecdsa | AlgorithmGroup::Ecdh => {
                if self.bits == 256 {
                    schemes.push(SignatureScheme::ECDSA_NISTP256_SHA256);
                } else if self.bits == 384 {
                    schemes.push(SignatureScheme::ECDSA_NISTP384_SHA384);
                }
            },
        }
        assert(schemes@ =~= supported_schemes_of(self.algorithm_group, self.bits));
        schemes
    }

    /// Chooses the scheme to sign with from those that the peer offers.
    ///
    /// The peer's order decides: the result is a signer for the first scheme
    /// in `offered` that the key supports, with a copy of the key's handle.
    /// Where the key supports none of them there is no signer, which is no
    /// failure: the TLS stack then turns to another credential.
    pub fn choose_scheme(&self, offered: &[SignatureScheme]) -> (signer: Option<CngSigner>)
        ensures
            match signer {
                Some(signer) => exists|i: int|
                    is_first_supported(
                        offered@,
                        supported_schemes_of(*self.algorithm_group(), self.bits()),
                        i,
                    ) && signer.scheme() == offered@[i] && signer.key() == self.key(),
                None => forall|i: int|
                    0 <= i < offered@.len() ==> !supported_schemes_of(
                        *self.algorithm_group(),
                        self.bits(),
                    ).contains(#[trigger] offered@[i]),
            },
    {
        let supported = self.supported_schemes();
        let mut i: usize = 0;
        while i < offered.len()
            invariant
                i <= offered@.len(),
                supported@ == supported_schemes_of(*self.algorithm_group(), self.bits()),
                forall|j: int| 0 <= j < i ==> !supported@.contains(#[trigger] offered@[j]),
            decreases offered@.len() - i,
        {
            let scheme = offered[i];
            if contains_scheme(&supported, scheme) {
                assert(is_first_supported(offered@, supported@, i as int));
                return Some(CngSigner { key: self.key, scheme });
            }
            i += 1;
        }
        None
    }

    /// The kind of key that the TLS stack is to take this one for. A key
    /// made for key agreement on an elliptic curve counts as an ECDSA key.
    pub fn algorithm(&self) -> (algorithm: SignatureAlgorithm)
        ensures
            algorithm == match *self.algorithm_group() {
                AlgorithmGroup::Rsa => SignatureAlgorithm::RSA,
                AlgorithmGroup::Ecdsa | AlgorithmGroup::Ecdh => SignatureAlgorithm::ECDSA,
            },
    {
        match self.algorithm_group {
            AlgorithmGroup::Rsa => SignatureAlgorithm::RSA,
            AlgorithmGroup::Ecdsa | AlgorithmGroup::Ecdh => SignatureAlgorithm::ECDSA,
        }
    }
}

impl CngSigner {
    /// The native key.
    pub closed spec fn spec_key(&self) -> &NCryptKey {
        &self.key
    }

    /// The scheme that the signer is bound to.
    pub closed spec fn spec_scheme(&self) -> SignatureScheme {
        self.scheme
    }

    /// Binds a key to a scheme. Nothing is asked of the scheme here: a signer
    /// bound to a scheme without hash function and padding fails when it is
    /// used.
    pub fn new(key: NCryptKey, scheme: SignatureScheme) -> (signer: Self)
        ensures
            *signer.key() == key,
            signer.scheme() == scheme,
    {
        CngSigner { key, scheme }
    }

    /// The native key.
    #[verifier::when_used_as_spec(spec_key)]
    pub fn key(&self) -> (key: &NCryptKey)
        ensures
            key == self.key(),
    {
        &self.key
    }

    /// The scheme that the signer was bound to when it was made.
    #[verifier::when_used_as_spec(spec_scheme)]
    pub fn scheme(&self) -> (scheme: SignatureScheme)
        ensures
            scheme == self.scheme(),
    {
        self.scheme
    }

    /// The hash function to digest the message with, and the padding to sign
    /// the digest with: those of the signer's scheme. A scheme that has none
    /// is refused with [`CngError::UnsupportedScheme`].
    pub fn hash_params(&self) -> (params: Result<(HashAlgorithm, SignaturePadding), CngError>)
        ensures
            params == match hash_and_padding(self.scheme()) {
                Some(found) => Ok::<(HashAlgorithm, SignaturePadding), CngError>(found),
                None => Err::<(HashAlgorithm, SignaturePadding), CngError>(
                    CngError::UnsupportedScheme,
                ),
            },
    {
        match self.scheme {
            SignatureScheme::RSA_PKCS1_SHA256 => Ok(
                (HashAlgorithm::Sha256, SignaturePadding::Pkcs1),
            ),
            SignatureScheme::RSA_PKCS1_SHA384 => Ok(
                (HashAlgorithm::Sha384, SignaturePadding::Pkcs1),
            ),
            SignatureScheme::RSA_PKCS1_SHA512 => Ok(
                (HashAlgorithm::Sha512, SignaturePadding::Pkcs1),
            ),
            SignatureScheme::RSA_PSS_SHA256 => Ok((HashAlgorithm::Sha256, SignaturePadding::Pss)),
            SignatureScheme::RSA_PSS_SHA384 => Ok((HashAlgorithm::Sha384, SignaturePadding::Pss)),
            SignatureScheme::RSA_PSS_SHA512 => Ok((HashAlgorithm::Sha512, SignaturePadding::Pss)),
            SignatureScheme::ECDSA_NISTP256_SHA256 => Ok(
                (HashAlgorithm::Sha256, SignaturePadding::Unpadded),
            ),
            SignatureScheme::ECDSA_NISTP384_SHA384 => Ok(
                (HashAlgorithm::Sha384, SignaturePadding::Unpadded),
            ),
            SignatureScheme::Other(_) => Err(CngError::UnsupportedScheme),
        }
    }

    /// Takes what the native hash primitive returned for the message: its
    /// status, and the buffer that it wrote the digest to.
    ///
    /// A signer whose scheme has no hash function fails with
    /// [`CngError::UnsupportedScheme`], whatever the primitive returned. A
    /// status other than zero fails with [`CngError::HashError`], which holds
    /// the status. Otherwise the result is the digest, as it was handed in,
    /// with the padding to sign it with.
    pub fn hash(&self, status: i32, digest: Vec<u8>) -> (hashed: Result<
        (Vec<u8>, SignaturePadding),
        CngError,
    >)
        ensures
            match hash_and_padding(self.scheme()) {
                None => hashed is Err && hashed->Err_0 == CngError::UnsupportedScheme,
                Some((_, padding)) => if status != 0 {
                    hashed is Err && hashed->Err_0 == CngError::HashError(status)
                } else {
                    hashed is Ok && hashed->Ok_0 == (digest, padding)
                },
            },
    {
        let (_, padding) = match self.hash_params() {
            Ok(params) => params,
            Err(e) => {
                return Err(e);
            },
        };
        if status != 0 {
            return Err(CngError::HashError(status));
        }
        Ok((digest, padding))
    }

    /// Takes what the key's sign operation returned for the digest, and
    /// yields the signature as TLS carries it: see [`signed_bytes`].
    pub fn sign(&self, signature: Result<Vec<u8>, u32>) -> (signed: Result<Vec<u8>, CngError>)
        ensures
            bytes_of(signed) == signed_bytes(self.scheme(), bytes_of(signature)),
    {
        let (_, padding) = match self.hash_params() {
            Ok(params) => params,
            Err(e) => {
                return Err(e);
            },
        };
        let raw = match signature {
            Ok(raw) => raw,
            Err(code) => {
                return Err(CngError::SigningError(code));
            },
        };
        match padding {
            SignaturePadding::Unpadded => p1363_to_der(raw.as_slice()),
            SignaturePadding::Pkcs1 | SignaturePadding::Pss => Ok(raw),
        }
    }
}

/// What a signer yields that is bound to a scheme which its key supports,
/// as every signer from [`CngSigningKey::choose_scheme`] is, once the key has
/// signed.
///
/// It never fails for want of a hash function. For an RSA key it yields the
/// key's signature as it is. For an elliptic-curve key it yields the key's
/// signature in DER, and fails only where that signature is not
/// convertible.
pub proof fn lemma_chosen_signer_signs(
    group: AlgorithmGroup,
    bits: u32,
    scheme: SignatureScheme,
    raw: Seq<u8>,
)
    requires
        supported_schemes_of(group, bits).contains(scheme),
    ensures
        signed_bytes(scheme, Ok(raw)) != Err::<Seq<u8>, CngError>(CngError::UnsupportedScheme),
        group == AlgorithmGroup::Rsa ==> signed_bytes(scheme, Ok(raw)) == Ok::<Seq<u8>, CngError>(
            raw,
        ),
        group != AlgorithmGroup::Rsa && is_convertible(raw) ==> signed_bytes(scheme, Ok(raw))
            == Ok::<Seq<u8>, CngError>(der_signature(raw)),
        group != AlgorithmGroup::Rsa && !is_convertible(raw) ==> signed_bytes(scheme, Ok(raw))
            == Err::<Seq<u8>, CngError>(CngError::InvalidSignatureLength),
{
}

} // verus!
