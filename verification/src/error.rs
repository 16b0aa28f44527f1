//! Failures of the bridge.

use vstd::prelude::*;

verus! {

/// Every way in which an operation of this crate fails.
///
/// None of these is transient: each stems from a condition of the platform
/// (a missing key, denied access, a prompt that was needed but suppressed) or
/// from a request that the bridge cannot serve, so a caller gains nothing by
/// trying again.
#[derive(Clone, Copy, Debug, PartialEq, Eq, Structural)]
pub enum CngError {
    /// The platform could not resolve the private key of a certificate. Holds
    /// the platform's error code.
    KeyAcquisitionError(u32),
    /// The platform could not build a certificate chain. Holds the platform's
    /// error code.
    ChainBuildError(u32),
    /// A key did not disclose its algorithm group or its length. Holds the
    /// platform's error code.
    KeyIntrospectionError(u32),
    /// A signer was bound to a scheme for which no hash and padding is known.
    UnsupportedScheme,
    /// The native hash primitive reported a status other than zero. Holds
    /// that status.
    HashError(i32),
    /// The key refused to sign. Holds the platform's error code.
    SigningError(u32),
    /// A fixed-width signature cannot be written as a DER sequence with
    /// single-byte lengths: it is empty, of odd length, or too long.
    InvalidSignatureLength,
}

} // verus!
