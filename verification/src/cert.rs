//! Certificates of the platform's store: their bytes, the request for their
//! private key, and the chain that leads from them towards a root.
//!
//! The values here stand for native records. A native handle is carried as
//! the number that the platform gave; the bytes of a certificate are a copy
//! of what the native record points to. The caller makes the native calls
//! and reports what came back.

use vstd::prelude::*;
use crate::error::CngError;
use crate::key::NCryptKey;

verus! {

/// Flag of a key request: fail rather than prompt the user.
pub const CRYPT_ACQUIRE_SILENT_FLAG: u32 = 0x40;

/// Flag of a key request: accept a key of the modern key-storage providers
/// only, and refuse one of a legacy provider.
pub const CRYPT_ACQUIRE_ONLY_NCRYPT_KEY_FLAG: u32 = 0x4_0000;

/// Bit of a certificate's access state: the certificate lives in a store of
/// the machine, not in one of the user.
pub const CERT_ACCESS_STATE_LM_SYSTEM_STORE_FLAG: u32 = 0x4;

/// Bit of a chain element's trust information: the certificate is its own
/// issuer.
pub const CERT_TRUST_IS_SELF_SIGNED: u32 = 0x8;

/// A native certificate handle, and who is to release it.
#[derive(Clone, Copy, Debug, PartialEq, Eq, Structural)]
pub enum InnerContext {
    /// The holder releases the handle when the last reference to it goes.
    Owned(usize),
    /// The handle belongs to another structure, such as a chain, and is
    /// never released by the holder. It must not outlive that structure.
    Borrowed(usize),
}

impl InnerContext {
    /// The native handle.
    pub open spec fn spec_inner(&self) -> usize {
        match self {
            InnerContext::Owned(handle) => *handle,
            InnerContext::Borrowed(handle) => *handle,
        }
    }

    /// The native handle, whoever owns it.
    #[verifier::when_used_as_spec(spec_inner)]
    pub fn inner(&self) -> (handle: usize)
        ensures
            handle == self.inner(),
    {
        match self {
            InnerContext::Owned(handle) => *handle,
            InnerContext::Borrowed(handle) => *handle,
        }
    }

    /// Whether the native handle is to be released when the last reference
    /// to it is dropped: so for an owned handle, and never for a borrowed
    /// one.
    pub fn releases_handle(&self) -> (release: bool)
        ensures
            release == (*self is Owned),
    {
        match self {
            InnerContext::Owned(_) => true,
            InnerContext::Borrowed(_) => false,
        }
    }
}

/// The engine that the platform builds a certificate chain with.
#[derive(Clone, Copy, Debug, PartialEq, Eq, Structural)]
pub enum ChainEngine {
    /// The default engine, which searches the stores of the current user.
    CurrentUser,
    /// The engine that searches the stores of the machine.
    LocalMachine,
}

impl ChainEngine {
    /// The handle by which the platform knows the engine: zero for the
    /// default engine, one for that of the machine.
    pub fn handle(self) -> (handle: isize)
        ensures
            handle == match self {
                ChainEngine::CurrentUser => 0isize,
                ChainEngine::LocalMachine => 1isize,
            },
    {
        match self {
            ChainEngine::CurrentUser => 0,
            ChainEngine::LocalMachine => 1,
        }
    }
}

/// A certificate of the platform's store.
#[derive(Clone, Debug)]
pub struct CertContext {
    inner: InnerContext,
    encoded: Vec<u8>,
}

/// One certificate of a chain, with what the platform found out about it.
#[derive(Clone, Debug)]
pub struct ChainElement {
    /// The information bits of the element's trust status.
    pub info_status: u32,
    /// The certificate, borrowed from the chain.
    pub context: CertContext,
}

/// One chain: the certificates from the end entity upwards.
#[derive(Clone, Debug)]
pub struct SimpleChain {
    /// The elements of the chain. The first is the end entity.
    pub elements: Vec<ChainElement>,
}

/// What the platform returns when it is asked for the chains of a
/// certificate.
#[derive(Clone, Debug)]
pub struct ChainContext {
    /// The chains that the platform found, the best first.
    pub chains: Vec<SimpleChain>,
}

/// Whether `value` has the bit set that `flag` names. `flag` is a power of
/// two.
pub open spec fn has_flag(value: u32, flag: u32) -> bool {
    (value as int / flag as int) % 2 == 1
}

/// The flags of a request for a private key: always the flag that confines
/// the request to the modern key-storage providers, and the silent flag
/// where the user must not be prompted.
pub open spec fn acquire_key_flags_of(silent: bool) -> u32 {
    if silent {
        (CRYPT_ACQUIRE_ONLY_NCRYPT_KEY_FLAG + CRYPT_ACQUIRE_SILENT_FLAG) as u32
    } else {
        CRYPT_ACQUIRE_ONLY_NCRYPT_KEY_FLAG
    }
}

/// Whether an access state says that the certificate lives in a store of
/// the machine.
pub open spec fn in_machine_store(access_state: u32) -> bool {
    has_flag(access_state, CERT_ACCESS_STATE_LM_SYSTEM_STORE_FLAG)
}

/// Whether the information bits of a trust status say that the certificate
/// is its own issuer.
pub open spec fn is_self_signed(info_status: u32) -> bool {
    has_flag(info_status, CERT_TRUST_IS_SELF_SIGNED)
}

/// Whether the first `n` elements of a chain are those that are handed out.
///
/// The end entity always is, self-signed or not. Every element after it is,
/// up to the first one that is self-signed: that one is the root, and it and
/// whatever follows it stay behind.
pub open spec fn is_chain_end(elements: Seq<ChainElement>, n: int) -> bool {
    &&& 0 <= n <= elements.len()
    &&& elements.len() > 0 ==> n >= 1
    &&& forall|i: int| 1 <= i < n ==> !is_self_signed((#[trigger] elements[i]).info_status)
    &&& n < elements.len() ==> is_self_signed(elements[n].info_status)
}

impl CertContext {
    /// The native handle and its ownership.
    pub closed spec fn spec_context(&self) -> InnerContext {
        self.inner
    }

    /// The native handle.
    pub open spec fn spec_inner(&self) -> usize {
        self.spec_context().inner()
    }

    /// The encoded certificate.
    pub closed spec fn der(&self) -> Seq<u8> {
        self.encoded@
    }

    /// Takes over a native certificate handle: whoever holds the last
    /// reference to it is to release it. `encoded` is the certificate in DER,
    /// as the native record holds it. Neither is looked into.
    pub fn new_owned(context: usize, encoded: Vec<u8>) -> (cert: Self)
        ensures
            cert.context() == InnerContext::Owned(context),
            cert.der() == encoded@,
    {
        CertContext { inner: InnerContext::Owned(context), encoded }
    }

    /// Borrows a native certificate handle from the structure that owns it.
    /// The handle is never released through this value. `encoded` is the
    /// certificate in DER, as the native record holds it.
    pub fn new_borrowed(context: usize, encoded: Vec<u8>) -> (cert: Self)
        ensures
            cert.context() == InnerContext::Borrowed(context),
            cert.der() == encoded@,
    {
        CertContext { inner: InnerContext::Borrowed(context), encoded }
    }

    /// The native handle and its ownership.
    #[verifier::when_used_as_spec(spec_context)]
    pub fn context(&self) -> (context: InnerContext)
        ensures
            context == self.context(),
    {
        self.inner
    }

    /// The native handle.
    #[verifier::when_used_as_spec(spec_inner)]
    pub fn inner(&self) -> (handle: usize)
        ensures
            handle == self.inner(),
    {
        self.inner.inner()
    }

    /// The certificate in DER. The bytes are lent, not copied.
    pub fn as_der(&self) -> (der: &[u8])
        ensures
            der@ == self.der(),
    {
        self.encoded.as_slice()
    }

    /// The flags to request the private key of a certificate with: see
    /// [`acquire_key_flags_of`].
    pub fn acquire_key_flags(silent: bool) -> (flags: u32)
        ensures
            flags == acquire_key_flags_of(silent),
    {
        if silent {
            assert(0x40u32 | 0x4_0000u32 == 0x4_0040u32) by (bit_vector);
            CRYPT_ACQUIRE_SILENT_FLAG | CRYPT_ACQUIRE_ONLY_NCRYPT_KEY_FLAG
        } else {
            CRYPT_ACQUIRE_ONLY_NCRYPT_KEY_FLAG
        }
    }

    /// Takes what the platform returned when it was asked for the private
    /// key of this certificate with the flags for `silent`: the key's handle,
    /// or an error code.
    ///
    /// A handle gives a key that is silent exactly where the request was. An
    /// error code gives [`CngError::KeyAcquisitionError`] with that code:
    /// there is no key without a handle.
    pub fn acquire_key(&self, silent: bool, acquired: Result<usize, u32>) -> (key: Result<
        NCryptKey,
        CngError,
    >)
        ensures
            match acquired {
                Ok(handle) => key is Ok && key->Ok_0.inner() == handle && key->Ok_0.is_silent()
                    == silent,
                Err(code) => key is Err && key->Err_0 == CngError::KeyAcquisitionError(code),
            },
    {
        match acquired {
            Ok(handle) => {
                let mut key = NCryptKey::new_owned(handle);
                key.set_silent(silent);
                Ok(key)
            },
            Err(code) => Err(CngError::KeyAcquisitionError(code)),
        }
    }

    /// The engine to build the chain of a certificate with, given the
    /// certificate's access state, or `None` where the platform would not
    /// tell it.
    ///
    /// A certificate that is known to live in a store of the machine gets
    /// the engine of the machine, so that its intermediates are looked for
    /// where it lives. Any other gets the default engine.
    pub fn chain_engine(access_state: Option<u32>) -> (engine: ChainEngine)
        ensures
            engine == if access_state is Some && in_machine_store(access_state->Some_0) {
                ChainEngine::LocalMachine
            } else {
                ChainEngine::CurrentUser
            },
    {
        match access_state {
            Some(state) => {
                assert((state & 0x4u32 != 0) == ((state / 0x4u32) % 2u32 == 1u32)) by (bit_vector);
                if state & CERT_ACCESS_STATE_LM_SYSTEM_STORE_FLAG != 0 {
                    ChainEngine::LocalMachine
                } else {
                    ChainEngine::CurrentUser
                }
            },
            None => ChainEngine::CurrentUser,
        }
    }

    /// Takes what the platform returned when it was asked for the chains of
    /// this certificate, and yields the chain to present: the certificates in
    /// DER, the end entity first, the root left out.
    ///
    /// An error code gives [`CngError::ChainBuildError`] with that code. Where
    /// the platform found no chain the result is empty, which is no failure.
    /// Otherwise the first chain is taken, and of it the elements that
    /// [`is_chain_end`] tells, in their order: the end entity, then every
    /// element before the first self-signed one. An end entity that is
    /// self-signed is therefore handed out, alone.
    pub fn as_chain_der(&self, chain: Result<ChainContext, u32>) -> (ders: Result<
        Vec<Vec<u8>>,
        CngError,
    >)
        ensures
            match chain {
                Err(code) => ders is Err && ders->Err_0 == CngError::ChainBuildError(code),
                Ok(found) => ders is Ok && if found.chains@.len() == 0 {
                    ders->Ok_0@.len() == 0
                } else {
                    &&& is_chain_end(found.chains@[0].elements@, ders->Ok_0@.len() as int)
                    &&& forall|i: int|
                        0 <= i < ders->Ok_0@.len() ==> (#[trigger] ders->Ok_0@[i])@
                            == found.chains@[0].elements@[i].context.der()
                },
            },
    {
        let found = match chain {
            Ok(found) => found,
            Err(code) => {
                return Err(CngError::ChainBuildError(code));
            },
        };
        if found.chains.len() > 0 {
            Ok(chain_der(&found.chains[0].elements))
        } else {
            Ok(Vec::new())
        }
    }
}

/// Copies out the certificates of one chain that are handed out: the
/// elements that [`is_chain_end`] tells, in their order.
fn chain_der(elements: &Vec<ChainElement>) -> (ders: Vec<Vec<u8>>)
    ensures
        is_chain_end(elements@, ders@.len() as int),
        forall|i: int|
            0 <= i < ders@.len() ==> (#[trigger] ders@[i])@ == elements@[i].context.der(),
{
    let mut ders: Vec<Vec<u8>> = Vec::new();
    let mut index: usize = 0;
    while index < elements.len()
        invariant
            index <= elements@.len(),
            ders@.len() == index,
            forall|i: int|
                1 <= i < index ==> !is_self_signed((#[trigger] elements@[i]).info_status),
            forall|i: int| 0 <= i < index ==> (#[trigger] ders@[i])@ == elements@[i].context.der(),
        decreases elements@.len() - index,
    {
        let element = &elements[index];
        let status: u32 = element.info_status;
        assert((status & 0x8u32 != 0) == ((status / 0x8u32) % 2u32 == 1u32)) by (bit_vector);
        if index != 0 && status & CERT_TRUST_IS_SELF_SIGNED != 0 {
            return ders;
        }
        ders.push(vstd::slice::slice_to_vec(element.context.as_der()));
        index += 1;
    }
    ders
}

/// The flags of a key request, bit by bit: the flag for the modern
/// providers is always set, and the silent flag is set exactly for a silent
/// request.
pub proof fn lemma_acquire_key_flags(silent: bool)
    ensures
        has_flag(acquire_key_flags_of(silent), CRYPT_ACQUIRE_ONLY_NCRYPT_KEY_FLAG),
        has_flag(acquire_key_flags_of(silent), CRYPT_ACQUIRE_SILENT_FLAG) == silent,
        acquire_key_flags_of(silent) == 0x4_0000 || acquire_key_flags_of(silent) == 0x4_0040,
{
}

/// A chain ends in one place only: the number of elements that are handed
/// out is determined by the chain.
pub proof fn lemma_chain_end_unique(elements: Seq<ChainElement>, n: int, m: int)
    requires
        is_chain_end(elements, n),
        is_chain_end(elements, m),
    ensures
        n == m,
{
    if n < m {
        assert(!is_self_signed(elements[n].info_status));
    } else if m < n {
        assert(!is_self_signed(elements[m].info_status));
    }
}

/// Of a chain that is not empty, the end entity is handed out; no element
/// that is handed out after it is self-signed; and where the chain holds a
/// self-signed element after the end entity, the first such element and all
/// that follow it are left out.
pub proof fn lemma_chain_end_excludes_root(elements: Seq<ChainElement>, n: int, root: int)
    requires
        is_chain_end(elements, n),
        1 <= root < elements.len(),
        is_self_signed(elements[root].info_status),
    ensures
        1 <= n <= root,
{
    if root < n {
        assert(!is_self_signed(elements[root].info_status));
    }
}

} // verus!
