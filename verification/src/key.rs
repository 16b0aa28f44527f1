//! What the bridge knows of a native key.

use vstd::prelude::*;

verus! {

/// The family of algorithms that a native key belongs to.
#[derive(Clone, Copy, Debug, PartialEq, Eq, Structural)]
pub enum AlgorithmGroup {
    /// RSA keys.
    Rsa,
    /// Elliptic-curve keys made for signing.
    Ecdsa,
    /// Elliptic-curve keys made for key agreement. They sign as ECDSA keys do.
    Ecdh,
}

/// The padding that a signature is made with.
#[derive(Clone, Copy, Debug, PartialEq, Eq, Structural)]
pub enum SignaturePadding {
    /// RSA with PKCS#1 v1.5 padding.
    Pkcs1,
    /// RSA with PSS padding.
    Pss,
    /// No padding, as for elliptic-curve signatures. Such a signature leaves
    /// the key in fixed-width form and is converted to DER before it is
    /// returned.
    Unpadded,
}

/// A handle to a private key in the platform's key store.
///
/// The handle is an opaque number: the bridge carries it from the place where
/// the platform hands it out to the place where the platform is asked to sign
/// with it, and never looks inside. Copies share the one native key.
#[derive(Clone, Copy, Debug, PartialEq, Eq, Structural)]
pub struct NCryptKey {
    handle: usize,
    silent: bool,
}

impl NCryptKey {
    /// The native handle.
    pub closed spec fn spec_inner(&self) -> usize {
        self.handle
    }

    /// Whether operations with this key must fail rather than prompt the user.
    pub closed spec fn spec_is_silent(&self) -> bool {
        self.silent
    }

    /// Takes over a native key handle. The key may prompt the user until
    /// [`NCryptKey::set_silent`] says otherwise.
    pub fn new_owned(handle: usize) -> (key: Self)
        ensures
            key.inner() == handle,
            !key.is_silent(),
    {
        NCryptKey { handle, silent: false }
    }

    /// The native handle.
    #[verifier::when_used_as_spec(spec_inner)]
    pub fn inner(&self) -> (handle: usize)
        ensures
            handle == self.inner(),
    {
        self.handle
    }

    /// Whether operations with this key must fail rather than prompt the user.
    #[verifier::when_used_as_spec(spec_is_silent)]
    pub fn is_silent(&self) -> (silent: bool)
        ensures
            silent == self.is_silent(),
    {
        self.silent
    }

    /// Says whether operations with this key may prompt the user. The handle
    /// stays the same.
    pub fn set_silent(&mut self, silent: bool)
        ensures
            final(self).is_silent() == silent,
            final(self).inner() == old(self).inner(),
    {
        self.silent = silent;
    }
}

} // verus!
