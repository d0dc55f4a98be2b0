use libcoap::CoapAddress;
use libcoap::CoapContext;
use libcoap::CoapResource;
use libcoap::CoapStaticCryptoProvider;
use libcoap::CoapTeardownAction;
use libcoap::ContextCreationError;
use libcoap::EndpointCreationError;
use libcoap::SessionCreationError;

const RAW_CONTEXT: u64 = 7;
const RAW_ENDPOINT: u64 = 11;
const RAW_RESOURCE: u64 = 13;
const RAW_SESSION: u64 = 5;

fn local_addr(port: u16) -> CoapAddress {
    CoapAddress::new_v4(0x7f00_0001, port)
}

#[test]
fn context_creation_fails_on_null_handle() {
    let r = CoapContext::new(0);
    assert!(matches!(r, Err(ContextCreationError::Unknown)));
}

#[test]
fn fresh_context_is_empty() {
    let ctx = CoapContext::new(RAW_CONTEXT).unwrap();
    assert_eq!(ctx.as_raw_context(), RAW_CONTEXT);
    assert!(ctx.endpoints().is_empty());
    assert!(ctx.sole_ownership());
    assert!(!ctx.server_crypto_provider());
}

#[test]
fn unimplemented_transports_fail_loudly() {
    let mut ctx = CoapContext::new(RAW_CONTEXT).unwrap();
    let tcp = ctx.add_endpoint_tcp(local_addr(5683));
    assert!(matches!(tcp, Err(EndpointCreationError::Unimplemented)));
    let tls = ctx.add_endpoint_tls(local_addr(5684));
    assert!(matches!(tls, Err(EndpointCreationError::Unimplemented)));
    assert!(ctx.endpoints().is_empty());
}

#[test]
fn failed_endpoint_creation_is_reported() {
    let mut ctx = CoapContext::new(RAW_CONTEXT).unwrap();
    let r = ctx.add_endpoint_udp(local_addr(0), 0);
    assert!(matches!(r, Err(EndpointCreationError::Unknown)));
    assert!(ctx.endpoints().is_empty());
}

#[test]
fn endpoint_destroyed_before_context_free() {
    let mut ctx = CoapContext::new(RAW_CONTEXT).unwrap();
    let ep = ctx.add_endpoint_udp(local_addr(0), RAW_ENDPOINT).unwrap();
    assert_eq!(ep.raw_endpoint, RAW_ENDPOINT);
    let plan = ctx.shutdown();
    assert_eq!(
        plan,
        vec![
            CoapTeardownAction::DestroyEndpoint { raw_endpoint: RAW_ENDPOINT },
            CoapTeardownAction::FreeContext { raw_context: RAW_CONTEXT },
        ]
    );
}

#[test]
fn full_teardown_order_is_endpoints_sessions_context() {
    let mut ctx = CoapContext::new(RAW_CONTEXT).unwrap();
    ctx.add_endpoint_udp(local_addr(0), RAW_ENDPOINT).unwrap();
    let h = ctx.connect_udp(local_addr(5683), RAW_SESSION).unwrap();
    ctx.release_session_token(&h);
    assert!(ctx.sole_ownership());
    let plan = ctx.shutdown();
    assert_eq!(
        plan,
        vec![
            CoapTeardownAction::DestroyEndpoint { raw_endpoint: RAW_ENDPOINT },
            CoapTeardownAction::ReleaseSession { raw_session: RAW_SESSION },
            CoapTeardownAction::FreeContext { raw_context: RAW_CONTEXT },
        ]
    );
}

#[test]
fn connected_session_found_under_peer_address() {
    let mut ctx = CoapContext::new(RAW_CONTEXT).unwrap();
    let addr = local_addr(5683);
    let h = ctx.connect_udp(addr, RAW_SESSION).unwrap();
    let entry = ctx.client_session_by_addr(addr).unwrap();
    assert_eq!(entry.addr, addr);
    assert_eq!(entry.token_id, h.token_id);
    assert_eq!(entry.ref_count, 2);
    assert_eq!(entry.session.raw_session, RAW_SESSION);
    assert!(entry.session.psk_info.is_none());
    assert!(ctx.client_session_by_addr(local_addr(9999)).is_none());
}

#[test]
fn failed_session_creation_is_reported() {
    let mut ctx = CoapContext::new(RAW_CONTEXT).unwrap();
    let addr = local_addr(5683);
    let r = ctx.connect_udp(addr, 0);
    assert!(matches!(r, Err(SessionCreationError::Unknown)));
    assert!(ctx.client_session_by_addr(addr).is_none());
}

#[test]
fn reconnect_replaces_table_entry() {
    let mut ctx = CoapContext::new(RAW_CONTEXT).unwrap();
    let addr = local_addr(5683);
    ctx.connect_udp(addr, RAW_SESSION).unwrap();
    let h2 = ctx.connect_udp(addr, 17).unwrap();
    let entry = ctx.client_session_by_addr(addr).unwrap();
    assert_eq!(entry.session.raw_session, 17);
    assert_eq!(entry.token_id, h2.token_id);
}

#[test]
fn token_raw_identity_round_trip() {
    let mut ctx = CoapContext::new(RAW_CONTEXT).unwrap();
    let addr = local_addr(5683);
    let h = ctx.connect_udp(addr, RAW_SESSION).unwrap();
    let raw = ctx.session_token_to_raw(&h);
    let h2 = ctx.session_token_from_raw(raw).unwrap();
    assert_eq!(h2, h);
    // The conversions moved no reference count.
    let entry = ctx.client_session_by_addr(addr).unwrap();
    assert_eq!(entry.ref_count, 2);
    assert!(ctx.session_token_from_raw(999).is_none());
}

#[test]
fn resources_found_by_exact_path() {
    let mut ctx = CoapContext::new(RAW_CONTEXT).unwrap();
    ctx.add_resource(CoapResource::new(String::from("/sensors"), RAW_RESOURCE));
    ctx.add_resource(CoapResource::new(String::from("/actuators"), RAW_RESOURCE + 1));
    let a = ctx.resource_by_uri_path(&String::from("/sensors")).unwrap();
    assert_eq!(a.raw_resource(), RAW_RESOURCE);
    assert_eq!(a.uri_path().as_str(), "/sensors");
    let b = ctx.resource_by_uri_path(&String::from("/actuators")).unwrap();
    assert_eq!(b.raw_resource(), RAW_RESOURCE + 1);
    assert!(ctx.resource_by_uri_path(&String::from("/missing")).is_none());
    assert!(ctx.resource_by_uri_path(&String::from("/sensor")).is_none());
}

#[test]
fn dtls_session_carries_default_credentials() {
    let mut ctx = CoapContext::new(RAW_CONTEXT).unwrap();
    let addr = local_addr(5684);
    let provider = CoapStaticCryptoProvider::new(b"client1".to_vec(), b"secretkey".to_vec());
    let h = ctx.connect_dtls(addr, provider, RAW_SESSION).unwrap();
    let entry = ctx.client_session_by_addr(addr).unwrap();
    assert_eq!(entry.token_id, h.token_id);
    assert!(entry.session.crypto_provider_attached);
    let info = entry.session.psk_info.as_ref().unwrap();
    assert_eq!(info.identity.len(), 7);
    assert_eq!(info.identity, b"client1".to_vec());
    assert_eq!(info.key.len(), 9);
    assert_eq!(info.key, b"secretkey".to_vec());
}

#[test]
fn failed_dtls_session_creation_is_reported() {
    let mut ctx = CoapContext::new(RAW_CONTEXT).unwrap();
    let provider = CoapStaticCryptoProvider::new(b"client1".to_vec(), b"secretkey".to_vec());
    let r = ctx.connect_dtls(local_addr(5684), provider, 0);
    assert!(matches!(r, Err(SessionCreationError::Unknown)));
}

#[test]
fn outstanding_token_holder_blocks_teardown() {
    let mut ctx = CoapContext::new(RAW_CONTEXT).unwrap();
    let addr = local_addr(5683);
    let h = ctx.connect_udp(addr, RAW_SESSION).unwrap();
    // The returned handle is still a holder beside the table itself: tearing
    // the context down now would violate the sole-ownership contract.
    assert!(!ctx.sole_ownership());
    let clone = ctx.clone_session_token(&h);
    assert!(!ctx.sole_ownership());
    ctx.release_session_token(&clone);
    ctx.release_session_token(&h);
    assert!(ctx.sole_ownership());
    let plan = ctx.shutdown();
    assert_eq!(plan.len(), 2);
}

#[test]
fn server_crypto_provider_installs_initial_material() {
    let mut ctx = CoapContext::new(RAW_CONTEXT).unwrap();
    let provider = CoapStaticCryptoProvider::new(b"hint0".to_vec(), b"serverkey".to_vec());
    ctx.set_server_crypto_provider(Some(provider));
    assert!(ctx.server_crypto_provider());
    ctx.set_server_crypto_provider(None::<CoapStaticCryptoProvider>);
    assert!(!ctx.server_crypto_provider());
}

#[test]
fn session_wrapper_attaches_credentials() {
    let mut s = libcoap::CoapClientSession::from_raw(RAW_SESSION);
    assert_eq!(s.raw_session, RAW_SESSION);
    assert!(s.psk_info.is_none());
    assert!(!s.crypto_provider_attached);
    s.set_crypto_provider(Some(libcoap::CoapCryptoPskInfo {
        identity: b"client1".to_vec(),
        key: b"secretkey".to_vec(),
    }));
    assert!(s.crypto_provider_attached);
    assert_eq!(s.psk_info.as_ref().unwrap().identity, b"client1".to_vec());
    s.set_crypto_provider(None);
    assert!(!s.crypto_provider_attached);
    assert!(s.psk_info.is_none());
}
