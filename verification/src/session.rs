//! Client sessions, the entries of the context's peer-address table, and the
//! bounded handles through which callers reach a live session.

use vstd::prelude::*;

use crate::crypto::CoapCryptoPskInfo;
use crate::types::CoapAddress;

verus! {

/// One logical peer relationship created by a connect operation. The native
/// session object behind `raw_session` carries an engine-internal reference
/// count of exactly one when freshly created; the teardown logic relies on
/// that and releases it exactly once.
#[derive(Debug)]
pub struct CoapClientSession {
    /// Identity of the native session object; never zero for a live one.
    pub raw_session: u64,
    /// Default PSK material attached to the session, when it was created
    /// over a security-negotiating transport.
    pub psk_info: Option<CoapCryptoPskInfo>,
    /// Whether a per-session credential provider is attached; the provider
    /// itself is callback state of the unverified shell.
    pub crypto_provider_attached: bool,
}

impl CoapClientSession {
    /// Wraps a freshly created native session identity.
    pub fn from_raw(raw_session: u64) -> (r: CoapClientSession)
        requires
            raw_session != 0,
        ensures
            r.raw_session == raw_session,
            r.psk_info is None,
            !r.crypto_provider_attached,
    {
        CoapClientSession { raw_session, psk_info: None, crypto_provider_attached: false }
    }

    /// Attaches or detaches the session's default PSK material; the shell
    /// keeps the matching provider for hint-specific handshake callbacks.
    pub fn set_crypto_provider(&mut self, psk_info: Option<CoapCryptoPskInfo>)
        ensures
            final(self).raw_session == old(self).raw_session,
            final(self).psk_info == psk_info,
            final(self).crypto_provider_attached == psk_info is Some,
    {
        self.crypto_provider_attached = self.psk_info_is_some(&psk_info);
        self.psk_info = psk_info;
    }

    fn psk_info_is_some(&self, psk_info: &Option<CoapCryptoPskInfo>) -> (r: bool)
        ensures
            r == psk_info is Some,
    {
        match psk_info {
            Some(_) => true,
            None => false,
        }
    }
}

/// One row of a context's peer-address table: the shared ownership token for
/// one client session, under the peer address it was connected to.
///
/// `ref_count` counts the host-side holders of the token: the table's own
/// hold plus every handle or clone given out and not yet released. The
/// engine's internal count is its own affair and is never duplicated here.
#[derive(Debug)]
pub struct CoapClientSessionEntry {
    /// Peer address the session was connected to.
    pub addr: CoapAddress,
    /// Identity of the token, recoverable from the raw identity a native
    /// callback hands back.
    pub token_id: u64,
    /// Number of live host-side holders of the token; at least one (the
    /// table itself) for as long as the entry exists.
    pub ref_count: u64,
    /// The session the token wraps.
    pub session: CoapClientSession,
}

/// A bounded accessor to one client session, valid no longer than the
/// context that created the session.
#[derive(Clone, Copy, PartialEq, Eq, Structural, Debug)]
pub struct CoapSessionHandle {
    /// Token identity of the session entry this handle refers to.
    pub token_id: u64,
}

} // verus!
