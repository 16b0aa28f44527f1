use rustls_cng::cert::CertContext;
use rustls_cng::cert::ChainContext;
use rustls_cng::cert::ChainElement;
use rustls_cng::cert::ChainEngine;
use rustls_cng::cert::InnerContext;
use rustls_cng::cert::SimpleChain;
use rustls_cng::cert::CERT_ACCESS_STATE_LM_SYSTEM_STORE_FLAG;
use rustls_cng::cert::CERT_TRUST_IS_SELF_SIGNED;
use rustls_cng::cert::CRYPT_ACQUIRE_ONLY_NCRYPT_KEY_FLAG;
use rustls_cng::cert::CRYPT_ACQUIRE_SILENT_FLAG;
use rustls_cng::error::CngError;
use windows_sys::Win32::Security::Cryptography;

/// A certificate as the tests tell them apart: a few bytes that start with
/// the tag of a sequence and hold `id`.
fn der(id: u8) -> Vec<u8> {
    vec![0x30, 0x03, 0x02, 0x01, id]
}

fn leaf() -> CertContext {
    CertContext::new_owned(0x1000, der(0))
}

fn element(id: u8, info_status: u32) -> ChainElement {
    ChainElement {
        info_status,
        context: CertContext::new_borrowed(0x2000 + id as usize, der(id)),
    }
}

fn one_chain(elements: Vec<ChainElement>) -> ChainContext {
    ChainContext {
        chains: vec![SimpleChain { elements }],
    }
}

#[test]
fn flags_are_those_of_the_platform() {
    assert_eq!(
        CRYPT_ACQUIRE_SILENT_FLAG,
        Cryptography::CRYPT_ACQUIRE_SILENT_FLAG
    );
    assert_eq!(
        CRYPT_ACQUIRE_ONLY_NCRYPT_KEY_FLAG,
        Cryptography::CRYPT_ACQUIRE_ONLY_NCRYPT_KEY_FLAG
    );
    assert_eq!(
        CERT_ACCESS_STATE_LM_SYSTEM_STORE_FLAG,
        Cryptography::CERT_ACCESS_STATE_LM_SYSTEM_STORE_FLAG
    );
    assert_eq!(
        CERT_TRUST_IS_SELF_SIGNED,
        Cryptography::CERT_TRUST_IS_SELF_SIGNED
    );
}

#[test]
fn chain_engine_handles_are_those_of_the_platform() {
    let default_engine: Cryptography::HCERTCHAINENGINE = Default::default();
    assert_eq!(ChainEngine::CurrentUser.handle(), default_engine);
    assert_eq!(ChainEngine::CurrentUser.handle(), 0);
    assert_eq!(ChainEngine::LocalMachine.handle(), 1);
}

#[test]
fn inner_context_gives_its_handle_either_way() {
    assert_eq!(InnerContext::Owned(0xabc).inner(), 0xabc);
    assert_eq!(InnerContext::Borrowed(0xdef).inner(), 0xdef);
}

#[test]
fn only_an_owned_handle_is_released() {
    assert!(InnerContext::Owned(1).releases_handle());
    assert!(!InnerContext::Borrowed(1).releases_handle());
}

#[test]
fn owned_context_keeps_handle_and_bytes() {
    let cert = CertContext::new_owned(0x7700, der(9));
    assert_eq!(cert.context(), InnerContext::Owned(0x7700));
    assert_eq!(cert.inner(), 0x7700);
    assert_eq!(cert.as_der(), [0x30, 0x03, 0x02, 0x01, 9]);
    assert!(cert.context().releases_handle());
}

#[test]
fn borrowed_context_keeps_handle_and_bytes() {
    let cert = CertContext::new_borrowed(0x7701, der(8));
    assert_eq!(cert.context(), InnerContext::Borrowed(0x7701));
    assert_eq!(cert.inner(), 0x7701);
    assert_eq!(cert.as_der(), [0x30, 0x03, 0x02, 0x01, 8]);
    assert!(!cert.context().releases_handle());
}

#[test]
fn context_takes_any_bytes() {
    let cert = CertContext::new_owned(0, Vec::new());
    assert!(cert.as_der().is_empty());
}

#[test]
fn acquire_key_flags_for_a_silent_request() {
    assert_eq!(CertContext::acquire_key_flags(true), 0x4_0040);
    assert_eq!(
        CertContext::acquire_key_flags(true),
        Cryptography::CRYPT_ACQUIRE_SILENT_FLAG | Cryptography::CRYPT_ACQUIRE_ONLY_NCRYPT_KEY_FLAG
    );
}

#[test]
fn acquire_key_flags_for_a_request_that_may_prompt() {
    assert_eq!(CertContext::acquire_key_flags(false), 0x4_0000);
    assert_eq!(
        CertContext::acquire_key_flags(false),
        Cryptography::CRYPT_ACQUIRE_ONLY_NCRYPT_KEY_FLAG
    );
}

#[test]
fn acquire_key_without_a_private_key_fails() {
    // CRYPT_E_NO_KEY_PROPERTY: the certificate has no private key.
    let key = leaf().acquire_key(true, Err(0x8009_200b));
    assert_eq!(key, Err(CngError::KeyAcquisitionError(0x8009_200b)));
}

#[test]
fn acquire_key_fails_with_the_code_of_the_platform() {
    for silent in [true, false] {
        for code in [0u32, 5, 0x8009_0022, 0x8010_006e, u32::MAX] {
            assert_eq!(
                leaf().acquire_key(silent, Err(code)),
                Err(CngError::KeyAcquisitionError(code))
            );
        }
    }
}

#[test]
fn acquired_key_is_as_silent_as_the_request() {
    let key = leaf().acquire_key(true, Ok(0x4242)).unwrap();
    assert_eq!(key.inner(), 0x4242);
    assert!(key.is_silent());
    let key = leaf().acquire_key(false, Ok(0x4243)).unwrap();
    assert_eq!(key.inner(), 0x4243);
    assert!(!key.is_silent());
}

#[test]
fn machine_store_gets_the_machine_engine() {
    assert_eq!(
        CertContext::chain_engine(Some(0x4)),
        ChainEngine::LocalMachine
    );
    assert_eq!(
        CertContext::chain_engine(Some(0x4 | 0x1 | 0x2)),
        ChainEngine::LocalMachine
    );
    assert_eq!(
        CertContext::chain_engine(Some(u32::MAX)),
        ChainEngine::LocalMachine
    );
}

#[test]
fn other_stores_get_the_default_engine() {
    assert_eq!(CertContext::chain_engine(Some(0)), ChainEngine::CurrentUser);
    assert_eq!(
        CertContext::chain_engine(Some(0x1 | 0x2)),
        ChainEngine::CurrentUser
    );
    assert_eq!(
        CertContext::chain_engine(Some(!0x4)),
        ChainEngine::CurrentUser
    );
}

#[test]
fn unknown_access_state_gets_the_default_engine() {
    assert_eq!(CertContext::chain_engine(None), ChainEngine::CurrentUser);
}

#[test]
fn chain_leaves_the_root_out() {
    let found = one_chain(vec![
        element(0, 0x102),
        element(1, 0x102),
        element(2, 0x101),
        element(3, 0x10c),
    ]);
    let chain = leaf().as_chain_der(Ok(found)).unwrap();
    assert_eq!(chain.len(), 3);
    assert_eq!(chain, vec![der(0), der(1), der(2)]);
}

#[test]
fn self_signed_leaf_is_its_own_chain() {
    let found = one_chain(vec![element(0, CERT_TRUST_IS_SELF_SIGNED)]);
    let chain = leaf().as_chain_der(Ok(found)).unwrap();
    assert_eq!(chain.len(), 1);
    assert_eq!(chain, vec![der(0)]);
}

#[test]
fn self_signed_leaf_does_not_end_the_chain() {
    let found = one_chain(vec![element(0, 0x8), element(1, 0), element(2, 0x8)]);
    let chain = leaf().as_chain_der(Ok(found)).unwrap();
    assert_eq!(chain, vec![der(0), der(1)]);
}

#[test]
fn chain_without_a_root_is_handed_out_whole() {
    let found = one_chain(vec![element(0, 0x1), element(1, 0x2), element(2, 0x4)]);
    let chain = leaf().as_chain_der(Ok(found)).unwrap();
    assert_eq!(chain, vec![der(0), der(1), der(2)]);
}

#[test]
fn chain_ends_at_the_first_self_signed_element() {
    let found = one_chain(vec![
        element(0, 0),
        element(1, 0x8),
        element(2, 0),
        element(3, 0x8),
    ]);
    let chain = leaf().as_chain_der(Ok(found)).unwrap();
    assert_eq!(chain, vec![der(0)]);
}

#[test]
fn no_chain_gives_an_empty_result() {
    let found = ChainContext { chains: Vec::new() };
    assert_eq!(leaf().as_chain_der(Ok(found)), Ok(Vec::new()));
}

#[test]
fn chain_without_elements_gives_an_empty_result() {
    assert_eq!(leaf().as_chain_der(Ok(one_chain(Vec::new()))), Ok(Vec::new()));
}

#[test]
fn only_the_first_chain_counts() {
    let found = ChainContext {
        chains: vec![
            SimpleChain {
                elements: vec![element(0, 0), element(1, 0x8)],
            },
            SimpleChain {
                elements: vec![element(0, 0), element(5, 0), element(6, 0x8)],
            },
        ],
    };
    assert_eq!(leaf().as_chain_der(Ok(found)), Ok(vec![der(0)]));
}

#[test]
fn chain_failure_is_reported_with_its_code() {
    for code in [0u32, 0x8009_2004, 0x800b_010a, u32::MAX] {
        assert_eq!(
            leaf().as_chain_der(Err(code)),
            Err(CngError::ChainBuildError(code))
        );
    }
}
