//! The root object of the model: a context owning its endpoints, resources
//! and client-session tokens, the decisions taken around every engine call,
//! and the teardown order the engine's free logic demands.
//!
//! Every operation that involves the native engine takes the engine's
//! outcome as a plain value (a nonzero identity for a created object, zero
//! for a failed creation, the signed millisecond count of an I/O pass) and is
//! verified for every value the engine could hand back. The unverified shell
//! performs the calls themselves.

use vstd::prelude::*;

use crate::crypto::opt_psk_info_view;
use crate::crypto::CoapClientCryptoProvider;
use crate::crypto::CoapCryptoPskData;
use crate::crypto::CoapServerCryptoProvider;
use crate::error::ContextCreationError;
use crate::error::EndpointCreationError;
use crate::error::IoProcessError;
use crate::error::SessionCreationError;
use crate::resource::CoapResource;
use crate::session::CoapClientSession;
use crate::session::CoapClientSessionEntry;
use crate::session::CoapSessionHandle;
use crate::transport::CoapEndpoint;
use crate::types::CoapAddress;
use crate::types::CoapDuration;
use crate::types::CoapProtocol;
use crate::types::COAP_BLOCK_SINGLE_BODY;
use crate::types::COAP_BLOCK_USE_LIBCOAP;
use crate::types::COAP_IO_WAIT;
use crate::types::NANOS_PER_MILLI;

verus! {

/// One step of the teardown sequence, for the shell to perform against the
/// engine. The order in which `CoapContext::shutdown` emits these is the
/// order the engine requires: endpoints first (the engine's context-free
/// call would free their memory a second time), then the session references
/// the connect calls acquired, then the context itself.
#[derive(Clone, Copy, PartialEq, Eq, Structural, Debug)]
pub enum CoapTeardownAction {
    /// Destroy the native endpoint with this identity.
    DestroyEndpoint { raw_endpoint: u64 },
    /// Release the engine-internal reference of the native session with this
    /// identity (a fresh client session carries exactly one).
    ReleaseSession { raw_session: u64 },
    /// Free the native context itself; always the last action.
    FreeContext { raw_context: u64 },
}

/// The root object: owns all endpoints and resources, a peer-address table
/// of shared client-session tokens, and the server-side PSK configuration.
#[derive(Debug)]
pub struct CoapContext {
    /// Identity of the native context; never zero for a live context.
    pub raw_context: u64,
    /// Block-wise transfer mode configured on the native context.
    pub block_mode: u8,
    /// Whether the global response handler is installed on the context.
    pub response_handler_registered: bool,
    /// Endpoints owned by this context, in creation order.
    pub endpoints: Vec<CoapEndpoint>,
    /// Resources owned by this context, in registration order; registration
    /// is irreversible for the context's lifetime.
    pub resources: Vec<CoapResource>,
    /// Peer-address table: one shared ownership token per live client
    /// session, keyed by the address used to connect.
    pub client_sessions: Vec<CoapClientSessionEntry>,
    /// Whether a server-side credential provider is attached; the provider
    /// itself is callback state of the unverified shell.
    pub server_crypto_attached: bool,
    /// The server-side PSK material installed on the native context, if any.
    pub server_psk: Option<CoapCryptoPskData>,
    /// Next unused token identity; token identities start at one so that
    /// zero can stand for "no token" in the engine's user-data slot.
    pub next_token: u64,
}

impl CoapContext {
    /// Well-formedness: the context is live, peer addresses and token
    /// identities are unique, every token has at least its table hold, and
    /// every owned native identity is nonzero.
    pub open spec fn wf(&self) -> bool {
        &&& self.raw_context != 0
        &&& forall|i: int, j: int|
            0 <= i < j < self.client_sessions@.len()
                ==> #[trigger] self.client_sessions@[i].addr
                != #[trigger] self.client_sessions@[j].addr
        &&& forall|i: int, j: int|
            0 <= i < j < self.client_sessions@.len()
                ==> #[trigger] self.client_sessions@[i].token_id
                != #[trigger] self.client_sessions@[j].token_id
        &&& forall|i: int|
            0 <= i < self.client_sessions@.len() ==> {
                &&& 1 <= #[trigger] self.client_sessions@[i].token_id < self.next_token
                &&& self.client_sessions@[i].ref_count >= 1
                &&& self.client_sessions@[i].session.raw_session != 0
            }
        &&& forall|i: int|
            0 <= i < self.endpoints@.len() ==> #[trigger] self.endpoints@[i].raw_endpoint != 0
        &&& self.next_token >= 1
    }

    /// Whether the peer-address table has an entry under `addr`.
    pub open spec fn has_session_addr(&self, addr: CoapAddress) -> bool {
        exists|i: int|
            0 <= i < self.client_sessions@.len() && #[trigger] self.client_sessions@[i].addr
                == addr
    }

    /// Index of the (unique) entry under `addr`.
    pub open spec fn session_index_for(&self, addr: CoapAddress) -> int {
        choose|i: int|
            0 <= i < self.client_sessions@.len() && #[trigger] self.client_sessions@[i].addr
                == addr
    }

    /// The table entry under `addr`; meaningful when `has_session_addr`.
    pub open spec fn session_entry_for(&self, addr: CoapAddress) -> CoapClientSessionEntry {
        self.client_sessions@[self.session_index_for(addr)]
    }

    /// Whether a live token with identity `token_id` exists.
    pub open spec fn has_token(&self, token_id: u64) -> bool {
        exists|i: int|
            0 <= i < self.client_sessions@.len() && #[trigger] self.client_sessions@[i].token_id
                == token_id
    }

    /// Index of the (unique) entry whose token is `token_id`.
    pub open spec fn token_index(&self, token_id: u64) -> int {
        choose|i: int|
            0 <= i < self.client_sessions@.len() && #[trigger] self.client_sessions@[i].token_id
                == token_id
    }

    /// The table entry whose token is `token_id`; meaningful when `has_token`.
    pub open spec fn token_entry(&self, token_id: u64) -> CoapClientSessionEntry {
        self.client_sessions@[self.token_index(token_id)]
    }

    /// Whether the table is the sole remaining holder of every session
    /// token, the precondition of teardown.
    pub open spec fn spec_sole_ownership(&self) -> bool {
        forall|i: int|
            0 <= i < self.client_sessions@.len() ==> #[trigger] self.client_sessions@[i].ref_count
                == 1
    }

    /// The unique index carrying `addr` is the one `session_index_for` picks.
    proof fn lemma_addr_index_is(&self, addr: CoapAddress, i: int)
        requires
            self.wf(),
            0 <= i < self.client_sessions@.len(),
            self.client_sessions@[i].addr == addr,
        ensures
            self.has_session_addr(addr),
            self.session_index_for(addr) == i,
            self.session_entry_for(addr) == self.client_sessions@[i],
    {
        assert(self.has_session_addr(addr));
        let j: int = self.session_index_for(addr);
        if i < j {
            assert(self.client_sessions@[i].addr != self.client_sessions@[j].addr);
        } else if j < i {
            assert(self.client_sessions@[j].addr != self.client_sessions@[i].addr);
        }
    }

    /// The unique index carrying `token_id` is the one `token_index` picks.
    proof fn lemma_token_index_is(&self, token_id: u64, i: int)
        requires
            self.wf(),
            0 <= i < self.client_sessions@.len(),
            self.client_sessions@[i].token_id == token_id,
        ensures
            self.has_token(token_id),
            self.token_index(token_id) == i,
            self.token_entry(token_id) == self.client_sessions@[i],
    {
        assert(self.has_token(token_id));
        let j: int = self.token_index(token_id);
        if i < j {
            assert(self.client_sessions@[i].token_id != self.client_sessions@[j].token_id);
        } else if j < i {
            assert(self.client_sessions@[j].token_id != self.client_sessions@[i].token_id);
        }
    }

    /// Wraps a freshly allocated native context, already configured for
    /// engine-managed block-wise transfer with single bodies and with the
    /// global response handler installed. A zero identity is a failed native
    /// allocation and is the only way construction fails.
    pub fn new(raw_context: u64) -> (r: Result<CoapContext, ContextCreationError>)
        ensures
            raw_context == 0 <==> r is Err,
            r matches Err(e) ==> e == ContextCreationError::Unknown,
            r matches Ok(c) ==> {
                &&& c.wf()
                &&& c.raw_context == raw_context
                &&& c.block_mode == COAP_BLOCK_USE_LIBCOAP | COAP_BLOCK_SINGLE_BODY
                &&& c.response_handler_registered
                &&& c.endpoints@.len() == 0
                &&& c.resources@.len() == 0
                &&& c.client_sessions@.len() == 0
                &&& !c.server_crypto_attached
                &&& c.server_psk is None
                &&& c.next_token == 1
            },
    {
        if raw_context == 0 {
            return Err(ContextCreationError::Unknown);
        }
        Ok(
            CoapContext {
                raw_context,
                block_mode: COAP_BLOCK_USE_LIBCOAP | COAP_BLOCK_SINGLE_BODY,
                response_handler_registered: true,
                endpoints: Vec::new(),
                resources: Vec::new(),
                client_sessions: Vec::new(),
                server_crypto_attached: false,
                server_psk: None,
                next_token: 1,
            },
        )
    }
}

impl CoapContext {
    /// Index of the table entry under `addr`, if one exists.
    fn find_addr_index(&self, addr: CoapAddress) -> (r: Option<usize>)
        ensures
            match r {
                Some(k) => k < self.client_sessions@.len() && self.client_sessions@[k as int].addr
                    == addr,
                None => forall|i: int|
                    0 <= i < self.client_sessions@.len() ==> #[trigger] self.client_sessions@[i].addr
                        != addr,
            },
    {
        let n: usize = self.client_sessions.len();
        let mut i: usize = 0;
        while i < n
            invariant
                i <= n,
                n == self.client_sessions@.len(),
                forall|j: int|
                    0 <= j < i ==> #[trigger] self.client_sessions@[j].addr != addr,
            decreases n - i,
        {
            if self.client_sessions[i].addr == addr {
                return Some(i);
            }
            i = i + 1;
        }
        None
    }

    /// Records a freshly created client session in the peer-address table
    /// under `addr`, replacing any previous entry for that peer, and hands
    /// back the new token's handle. The token starts with two holders: the
    /// table itself and the returned handle.
    fn record_client_session(&mut self, addr: CoapAddress, session: CoapClientSession) -> (h:
        CoapSessionHandle)
        requires
            old(self).wf(),
            old(self).next_token < u64::MAX,
            session.raw_session != 0,
        ensures
            final(self).wf(),
            h.token_id == old(self).next_token,
            final(self).client_sessions@.len() == if old(self).has_session_addr(addr) {
                old(self).client_sessions@.len() as int
            } else {
                old(self).client_sessions@.len() as int + 1
            },
            final(self).has_session_addr(addr),
            final(self).session_entry_for(addr) == (CoapClientSessionEntry {
                addr,
                token_id: old(self).next_token,
                ref_count: 2,
                session,
            }),
            final(self).has_token(h.token_id),
            final(self).token_entry(h.token_id) == final(self).session_entry_for(addr),
            forall|a: CoapAddress|
                a != addr ==> #[trigger] final(self).has_session_addr(a) == old(
                    self,
                ).has_session_addr(a),
            forall|a: CoapAddress|
                a != addr && old(self).has_session_addr(a)
                    ==> #[trigger] final(self).session_entry_for(a) == old(
                    self,
                ).session_entry_for(a),
            final(self).endpoints@ == old(self).endpoints@,
            final(self).resources@ == old(self).resources@,
            final(self).raw_context == old(self).raw_context,
            final(self).block_mode == old(self).block_mode,
            final(self).response_handler_registered == old(self).response_handler_registered,
            final(self).server_crypto_attached == old(self).server_crypto_attached,
            final(self).server_psk == old(self).server_psk,
            final(self).next_token == old(self).next_token + 1,
    {
        let token_id: u64 = self.next_token;
        self.next_token = token_id + 1;
        let entry = CoapClientSessionEntry { addr, token_id, ref_count: 2, session };
        let found = self.find_addr_index(addr);
        match found {
            Some(k) => {
                self.client_sessions.set(k, entry);
                proof {
                    self.lemma_record_post(*old(self), addr, k as int);
                }
            },
            None => {
                let ghost k: int = self.client_sessions@.len() as int;
                self.client_sessions.push(entry);
                proof {
                    self.lemma_record_post(*old(self), addr, k);
                }
            },
        }
        CoapSessionHandle { token_id }
    }

    /// After writing the new entry at index `k` (an overwrite of the old
    /// entry for `addr`, or an append), the table is well formed again, the
    /// new entry is the one found under `addr` and under its token, and
    /// every other peer's entry is untouched.
    proof fn lemma_record_post(&self, pre: CoapContext, addr: CoapAddress, k: int)
        requires
            pre.wf(),
            pre.next_token < u64::MAX,
            self.next_token == pre.next_token + 1,
            self.raw_context == pre.raw_context,
            self.endpoints@ == pre.endpoints@,
            0 <= k < self.client_sessions@.len(),
            k <= pre.client_sessions@.len(),
            self.client_sessions@.len() <= pre.client_sessions@.len() + 1,
            k < pre.client_sessions@.len() ==> {
                &&& self.client_sessions@.len() == pre.client_sessions@.len()
                &&& pre.client_sessions@[k].addr == addr
            },
            k == pre.client_sessions@.len() ==> {
                &&& self.client_sessions@.len() == pre.client_sessions@.len() + 1
                &&& forall|i: int|
                    0 <= i < pre.client_sessions@.len()
                        ==> #[trigger] pre.client_sessions@[i].addr != addr
            },
            forall|i: int|
                0 <= i < pre.client_sessions@.len() && i != k
                    ==> #[trigger] self.client_sessions@[i] == pre.client_sessions@[i],
            self.client_sessions@[k].addr == addr,
            self.client_sessions@[k].token_id == pre.next_token,
            self.client_sessions@[k].ref_count == 2,
            self.client_sessions@[k].session.raw_session != 0,
        ensures
            self.wf(),
            self.client_sessions@.len() == if pre.has_session_addr(addr) {
                pre.client_sessions@.len() as int
            } else {
                pre.client_sessions@.len() as int + 1
            },
            self.has_session_addr(addr),
            self.session_entry_for(addr) == self.client_sessions@[k],
            self.has_token(pre.next_token),
            self.token_entry(pre.next_token) == self.client_sessions@[k],
            forall|a: CoapAddress|
                a != addr ==> #[trigger] self.has_session_addr(a) == pre.has_session_addr(a),
            forall|a: CoapAddress|
                a != addr && pre.has_session_addr(a) ==> #[trigger] self.session_entry_for(a)
                    == pre.session_entry_for(a),
    {
        let oldcs = pre.client_sessions@;
        let newcs = self.client_sessions@;
        if k < oldcs.len() {
            assert(pre.has_session_addr(addr));
        } else if pre.has_session_addr(addr) {
            let m: int = choose|m: int| 0 <= m < oldcs.len() && #[trigger] oldcs[m].addr == addr;
            assert(oldcs[m].addr != addr);
        }
        assert forall|i: int, j: int| 0 <= i < j < newcs.len() implies #[trigger] newcs[i].addr
            != #[trigger] newcs[j].addr by {
            if i != k && j != k {
                assert(newcs[i] == oldcs[i] && newcs[j] == oldcs[j]);
            } else if i == k && j < oldcs.len() {
                assert(newcs[j] == oldcs[j]);
                if k < oldcs.len() {
                    assert(oldcs[k].addr != oldcs[j].addr);
                }
            } else if j == k && i < oldcs.len() {
                assert(newcs[i] == oldcs[i]);
                if k < oldcs.len() {
                    assert(oldcs[i].addr != oldcs[k].addr);
                }
            }
        }
        assert forall|i: int, j: int| 0 <= i < j < newcs.len() implies #[trigger] newcs[i].token_id
            != #[trigger] newcs[j].token_id by {
            if i != k && j != k {
                assert(newcs[i] == oldcs[i] && newcs[j] == oldcs[j]);
            } else if i == k {
                assert(newcs[j] == oldcs[j]);
                assert(oldcs[j].token_id < pre.next_token);
            } else if j == k {
                assert(newcs[i] == oldcs[i]);
                assert(oldcs[i].token_id < pre.next_token);
            }
        }
        assert forall|i: int| 0 <= i < newcs.len() implies {
            &&& 1 <= #[trigger] newcs[i].token_id < self.next_token
            &&& newcs[i].ref_count >= 1
            &&& newcs[i].session.raw_session != 0
        } by {
            if i != k {
                assert(newcs[i] == oldcs[i]);
                assert(1 <= newcs[i].token_id < pre.next_token);
            }
        }
        self.lemma_addr_index_is(addr, k);
        self.lemma_token_index_is(pre.next_token, k);
        assert forall|a: CoapAddress|
            a != addr implies #[trigger] self.has_session_addr(a) == pre.has_session_addr(
            a,
        ) by {
            if self.has_session_addr(a) {
                let m: int = choose|m: int| 0 <= m < newcs.len() && #[trigger] newcs[m].addr == a;
                assert(m != k);
                assert(oldcs[m] == newcs[m]);
                pre.lemma_addr_index_is(a, m);
            } else if pre.has_session_addr(a) {
                let m: int = choose|m: int| 0 <= m < oldcs.len() && #[trigger] oldcs[m].addr == a;
                assert(m != k);
                assert(newcs[m] == oldcs[m]);
                assert(self.has_session_addr(a));
            }
        }
        assert forall|a: CoapAddress|
            a != addr && pre.has_session_addr(a) implies #[trigger] self.session_entry_for(a)
            == pre.session_entry_for(a) by {
            let m: int = choose|m: int| 0 <= m < oldcs.len() && #[trigger] oldcs[m].addr == a;
            assert(m != k);
            assert(newcs[m] == oldcs[m]);
            pre.lemma_addr_index_is(a, m);
            self.lemma_addr_index_is(a, m);
        }
    }

    /// Creates a plain-transport client session to `addr` from the engine's
    /// session-creation outcome (`raw_session`; zero means the engine failed
    /// to create one). On success the session is recorded in the
    /// peer-address table under exactly `addr`, and the returned handle's
    /// token leads back to the same entry.
    pub fn connect_udp(&mut self, addr: CoapAddress, raw_session: u64) -> (r: Result<
        CoapSessionHandle,
        SessionCreationError,
    >)
        requires
            old(self).wf(),
            old(self).next_token < u64::MAX,
        ensures
            final(self).wf(),
            raw_session == 0 <==> r is Err,
            r matches Err(e) ==> e == SessionCreationError::Unknown && *final(self) == *old(self),
            r matches Ok(h) ==> {
                &&& h.token_id == old(self).next_token
                &&& final(self).client_sessions@.len() == if old(self).has_session_addr(addr) {
                    old(self).client_sessions@.len() as int
                } else {
                    old(self).client_sessions@.len() as int + 1
                }
                &&& final(self).has_session_addr(addr)
                &&& final(self).session_entry_for(addr) == (CoapClientSessionEntry {
                    addr,
                    token_id: old(self).next_token,
                    ref_count: 2,
                    session: CoapClientSession {
                        raw_session,
                        psk_info: None,
                        crypto_provider_attached: false,
                    },
                })
                &&& final(self).has_token(h.token_id)
                &&& final(self).token_entry(h.token_id) == final(self).session_entry_for(addr)
                &&& forall|a: CoapAddress|
                    a != addr ==> #[trigger] final(self).has_session_addr(a) == old(
                        self,
                    ).has_session_addr(a)
                &&& forall|a: CoapAddress|
                    a != addr && old(self).has_session_addr(a)
                        ==> #[trigger] final(self).session_entry_for(a) == old(
                        self,
                    ).session_entry_for(a)
                &&& final(self).endpoints@ == old(self).endpoints@
                &&& final(self).resources@ == old(self).resources@
                &&& final(self).raw_context == old(self).raw_context
                &&& final(self).next_token == old(self).next_token + 1
            },
    {
        if raw_session == 0 {
            return Err(SessionCreationError::Unknown);
        }
        let session = CoapClientSession {
            raw_session,
            psk_info: None,
            crypto_provider_attached: false,
        };
        let h = self.record_client_session(addr, session);
        Ok(h)
    }

    /// Creates a security-negotiating client session to `addr`. The provider
    /// is asked up front for its default PSK material (its absence is a
    /// caller contract violation, so the material is required to exist), and
    /// that material travels with the recorded session; `raw_session` is the
    /// engine's session-creation outcome, zero for a failed creation.
    pub fn connect_dtls<P: CoapClientCryptoProvider>(
        &mut self,
        addr: CoapAddress,
        provider: P,
        raw_session: u64,
    ) -> (r: Result<CoapSessionHandle, SessionCreationError>)
        requires
            old(self).wf(),
            old(self).next_token < u64::MAX,
            provider.info_for_hint(None) is Some,
        ensures
            final(self).wf(),
            raw_session == 0 <==> r is Err,
            r matches Err(e) ==> e == SessionCreationError::Unknown && *final(self) == *old(self),
            r matches Ok(h) ==> {
                &&& h.token_id == old(self).next_token
                &&& final(self).client_sessions@.len() == if old(self).has_session_addr(addr) {
                    old(self).client_sessions@.len() as int
                } else {
                    old(self).client_sessions@.len() as int + 1
                }
                &&& final(self).has_session_addr(addr)
                &&& final(self).session_entry_for(addr).addr == addr
                &&& final(self).session_entry_for(addr).token_id == old(self).next_token
                &&& final(self).session_entry_for(addr).ref_count == 2
                &&& final(self).session_entry_for(addr).session.raw_session == raw_session
                &&& final(self).session_entry_for(addr).session.crypto_provider_attached
                &&& opt_psk_info_view(final(self).session_entry_for(addr).session.psk_info)
                    == provider.info_for_hint(None)
                &&& final(self).has_token(h.token_id)
                &&& final(self).token_entry(h.token_id) == final(self).session_entry_for(addr)
                &&& forall|a: CoapAddress|
                    a != addr ==> #[trigger] final(self).has_session_addr(a) == old(
                        self,
                    ).has_session_addr(a)
                &&& forall|a: CoapAddress|
                    a != addr && old(self).has_session_addr(a)
                        ==> #[trigger] final(self).session_entry_for(a) == old(
                        self,
                    ).session_entry_for(a)
                &&& final(self).endpoints@ == old(self).endpoints@
                &&& final(self).resources@ == old(self).resources@
                &&& final(self).raw_context == old(self).raw_context
                &&& final(self).next_token == old(self).next_token + 1
            },
    {
        let mut provider = provider;
        let info = provider.provide_info_for_hint(None);
        match info {
            Some(id) => {
                if raw_session == 0 {
                    return Err(SessionCreationError::Unknown);
                }
                let session = CoapClientSession {
                    raw_session,
                    psk_info: Some(id),
                    crypto_provider_attached: true,
                };
                let h = self.record_client_session(addr, session);
                Ok(h)
            },
            None => {
                proof {
                    assert(false);
                }
                Err(SessionCreationError::Unknown)
            },
        }
    }

    /// Looks a live client session up in the peer-address table by the exact
    /// address it was connected to.
    pub fn client_session_by_addr(&self, addr: CoapAddress) -> (r: Option<
        &CoapClientSessionEntry,
    >)
        requires
            self.wf(),
        ensures
            r is Some <==> self.has_session_addr(addr),
            r matches Some(e) ==> *e == self.session_entry_for(addr),
    {
        let found = self.find_addr_index(addr);
        match found {
            Some(k) => {
                proof {
                    self.lemma_addr_index_is(addr, k as int);
                }
                Some(&self.client_sessions[k])
            },
            None => {
                proof {
                    if self.has_session_addr(addr) {
                        let m: int = choose|m: int|
                            0 <= m < self.client_sessions@.len()
                                && #[trigger] self.client_sessions@[m].addr == addr;
                        assert(self.client_sessions@[m].addr != addr);
                    }
                }
                None
            },
        }
    }
}

impl CoapContext {
    /// Index of the table entry whose token is `token_id`, if one exists.
    fn find_token_index(&self, token_id: u64) -> (r: Option<usize>)
        ensures
            match r {
                Some(k) => k < self.client_sessions@.len() && self.client_sessions@[k as int].token_id
                    == token_id,
                None => forall|i: int|
                    0 <= i < self.client_sessions@.len()
                        ==> #[trigger] self.client_sessions@[i].token_id != token_id,
            },
    {
        let n: usize = self.client_sessions.len();
        let mut i: usize = 0;
        while i < n
            invariant
                i <= n,
                n == self.client_sessions@.len(),
                forall|j: int|
                    0 <= j < i ==> #[trigger] self.client_sessions@[j].token_id != token_id,
            decreases n - i,
        {
            if self.client_sessions[i].token_id == token_id {
                return Some(i);
            }
            i = i + 1;
        }
        None
    }

    /// Bumps the holder count of the entry at index `k` by `delta` (one for
    /// a clone, minus one for a release); everything else is untouched.
    fn adjust_ref_count(&mut self, k: usize, increment: bool)
        requires
            old(self).wf(),
            k < old(self).client_sessions@.len(),
            increment ==> old(self).client_sessions@[k as int].ref_count < u64::MAX,
            !increment ==> old(self).client_sessions@[k as int].ref_count >= 2,
        ensures
            final(self).wf(),
            final(self).client_sessions@ == old(self).client_sessions@.update(
                k as int,
                CoapClientSessionEntry {
                    addr: old(self).client_sessions@[k as int].addr,
                    token_id: old(self).client_sessions@[k as int].token_id,
                    ref_count: if increment {
                        (old(self).client_sessions@[k as int].ref_count + 1) as u64
                    } else {
                        (old(self).client_sessions@[k as int].ref_count - 1) as u64
                    },
                    session: old(self).client_sessions@[k as int].session,
                },
            ),
            final(self).endpoints@ == old(self).endpoints@,
            final(self).resources@ == old(self).resources@,
            final(self).raw_context == old(self).raw_context,
            final(self).block_mode == old(self).block_mode,
            final(self).response_handler_registered == old(self).response_handler_registered,
            final(self).server_crypto_attached == old(self).server_crypto_attached,
            final(self).server_psk == old(self).server_psk,
            final(self).next_token == old(self).next_token,
    {
        let entry = self.client_sessions.remove(k);
        let ghost ge = entry;
        let entry2 = CoapClientSessionEntry {
            addr: entry.addr,
            token_id: entry.token_id,
            ref_count: if increment {
                entry.ref_count + 1
            } else {
                entry.ref_count - 1
            },
            session: entry.session,
        };
        let ghost ge2 = entry2;
        self.client_sessions.insert(k, entry2);
        proof {
            let oldcs = old(self).client_sessions@;
            let newcs = self.client_sessions@;
            assert(ge == oldcs[k as int]);
            assert(newcs =~= oldcs.update(k as int, ge2));
            assert forall|i: int| 0 <= i < newcs.len() implies {
                &&& #[trigger] newcs[i].addr == oldcs[i].addr
                &&& newcs[i].token_id == oldcs[i].token_id
                &&& newcs[i].session == oldcs[i].session
                &&& newcs[i].ref_count >= 1
            } by {
                assert(1 <= oldcs[i].token_id < old(self).next_token);
                if i != k {
                    assert(newcs[i] == oldcs[i]);
                } else {
                    assert(newcs[i] == ge2);
                    assert(ge2.addr == ge.addr);
                    assert(1 <= oldcs[k as int].token_id < old(self).next_token);
                }
            }
            assert forall|i: int, j: int| 0 <= i < j < newcs.len() implies #[trigger] newcs[i].addr
                != #[trigger] newcs[j].addr by {
                assert(oldcs[i].addr != oldcs[j].addr);
            }
            assert forall|i: int, j: int|
                0 <= i < j < newcs.len() implies #[trigger] newcs[i].token_id
                != #[trigger] newcs[j].token_id by {
                assert(oldcs[i].token_id != oldcs[j].token_id);
            }
            assert forall|i: int| 0 <= i < newcs.len() implies {
                &&& 1 <= #[trigger] newcs[i].token_id < self.next_token
                &&& newcs[i].ref_count >= 1
                &&& newcs[i].session.raw_session != 0
            } by {
                assert(1 <= oldcs[i].token_id < old(self).next_token);
                if i != k {
                    assert(newcs[i] == oldcs[i]);
                } else {
                    assert(newcs[i] == ge2);
                }
            }
        }
    }

    /// Makes one more host-side holder of a live session token, as when the
    /// raw identity stored in a native user-data slot is duplicated into a
    /// further owned reference.
    pub fn clone_session_token(&mut self, handle: &CoapSessionHandle) -> (r: CoapSessionHandle)
        requires
            old(self).wf(),
            old(self).has_token(handle.token_id),
            old(self).token_entry(handle.token_id).ref_count < u64::MAX,
        ensures
            final(self).wf(),
            r == *handle,
            final(self).client_sessions@ == old(self).client_sessions@.update(
                old(self).token_index(handle.token_id),
                CoapClientSessionEntry {
                    addr: old(self).token_entry(handle.token_id).addr,
                    token_id: handle.token_id,
                    ref_count: (old(self).token_entry(handle.token_id).ref_count + 1) as u64,
                    session: old(self).token_entry(handle.token_id).session,
                },
            ),
            final(self).has_token(handle.token_id),
            final(self).token_entry(handle.token_id).ref_count == old(self).token_entry(
                handle.token_id,
            ).ref_count + 1,
            final(self).endpoints@ == old(self).endpoints@,
            final(self).resources@ == old(self).resources@,
            final(self).raw_context == old(self).raw_context,
            final(self).next_token == old(self).next_token,
    {
        let found = self.find_token_index(handle.token_id);
        match found {
            Some(k) => {
                proof {
                    old(self).lemma_token_index_is(handle.token_id, k as int);
                }
                self.adjust_ref_count(k, true);
                proof {
                    self.lemma_token_index_is(handle.token_id, k as int);
                }
                CoapSessionHandle { token_id: handle.token_id }
            },
            None => {
                proof {
                    let m: int = choose|m: int|
                        0 <= m < old(self).client_sessions@.len()
                            && #[trigger] old(self).client_sessions@[m].token_id
                            == handle.token_id;
                    assert(false);
                }
                CoapSessionHandle { token_id: handle.token_id }
            },
        }
    }

    /// Releases one host-side holder of a live session token. The table's
    /// own hold is not releasable this way: it falls only with teardown.
    pub fn release_session_token(&mut self, handle: &CoapSessionHandle)
        requires
            old(self).wf(),
            old(self).has_token(handle.token_id),
            old(self).token_entry(handle.token_id).ref_count >= 2,
        ensures
            final(self).wf(),
            final(self).client_sessions@ == old(self).client_sessions@.update(
                old(self).token_index(handle.token_id),
                CoapClientSessionEntry {
                    addr: old(self).token_entry(handle.token_id).addr,
                    token_id: handle.token_id,
                    ref_count: (old(self).token_entry(handle.token_id).ref_count - 1) as u64,
                    session: old(self).token_entry(handle.token_id).session,
                },
            ),
            final(self).has_token(handle.token_id),
            final(self).token_entry(handle.token_id).ref_count == old(self).token_entry(
                handle.token_id,
            ).ref_count - 1,
            final(self).endpoints@ == old(self).endpoints@,
            final(self).resources@ == old(self).resources@,
            final(self).raw_context == old(self).raw_context,
            final(self).next_token == old(self).next_token,
    {
        let found = self.find_token_index(handle.token_id);
        match found {
            Some(k) => {
                proof {
                    old(self).lemma_token_index_is(handle.token_id, k as int);
                }
                self.adjust_ref_count(k, false);
                proof {
                    self.lemma_token_index_is(handle.token_id, k as int);
                }
            },
            None => {
                proof {
                    let m: int = choose|m: int|
                        0 <= m < old(self).client_sessions@.len()
                            && #[trigger] old(self).client_sessions@[m].token_id
                            == handle.token_id;
                    assert(false);
                }
            },
        }
    }

    /// The raw identity under which a token can be parked in a native
    /// user-data slot; the conversion itself touches no reference count.
    pub fn session_token_to_raw(&self, handle: &CoapSessionHandle) -> (r: u64)
        ensures
            r == spec_token_to_raw(*handle),
    {
        handle.token_id
    }

    /// Recovers the token behind a raw identity a native callback handed
    /// back, touching no reference count; `None` when no live token carries
    /// that identity.
    pub fn session_token_from_raw(&self, raw: u64) -> (r: Option<CoapSessionHandle>)
        requires
            self.wf(),
        ensures
            r is Some <==> self.has_token(raw),
            r matches Some(h) ==> h == spec_token_from_raw(raw),
    {
        let found = self.find_token_index(raw);
        match found {
            Some(k) => {
                proof {
                    self.lemma_token_index_is(raw, k as int);
                }
                Some(CoapSessionHandle { token_id: raw })
            },
            None => {
                proof {
                    if self.has_token(raw) {
                        let m: int = choose|m: int|
                            0 <= m < self.client_sessions@.len()
                                && #[trigger] self.client_sessions@[m].token_id == raw;
                        assert(self.client_sessions@[m].token_id != raw);
                    }
                }
                None
            },
        }
    }

    /// Whether the table is the sole remaining holder of every session
    /// token; teardown demands that this hold.
    pub fn sole_ownership(&self) -> (r: bool)
        ensures
            r == self.spec_sole_ownership(),
    {
        let n: usize = self.client_sessions.len();
        let mut i: usize = 0;
        while i < n
            invariant
                i <= n,
                n == self.client_sessions@.len(),
                forall|j: int|
                    0 <= j < i ==> #[trigger] self.client_sessions@[j].ref_count == 1,
            decreases n - i,
        {
            if self.client_sessions[i].ref_count != 1 {
                proof {
                    assert(self.client_sessions@[i as int].ref_count != 1);
                }
                return false;
            }
            i = i + 1;
        }
        true
    }

    /// Appends an endpoint of the given kind from the engine's
    /// endpoint-creation outcome (zero for a failed creation or bind).
    fn add_endpoint(&mut self, kind: CoapProtocol, addr: CoapAddress, raw_endpoint: u64) -> (r:
        Result<CoapEndpoint, EndpointCreationError>)
        requires
            old(self).wf(),
        ensures
            final(self).wf(),
            raw_endpoint == 0 <==> r is Err,
            r matches Err(e) ==> e == EndpointCreationError::Unknown && *final(self) == *old(self),
            r matches Ok(ep) ==> {
                &&& ep == (CoapEndpoint { kind, addr, raw_endpoint })
                &&& final(self).endpoints@ == old(self).endpoints@.push(ep)
                &&& final(self).resources@ == old(self).resources@
                &&& final(self).client_sessions@ == old(self).client_sessions@
                &&& final(self).raw_context == old(self).raw_context
                &&& final(self).next_token == old(self).next_token
                &&& final(self).server_crypto_attached == old(self).server_crypto_attached
                &&& final(self).server_psk == old(self).server_psk
                &&& final(self).block_mode == old(self).block_mode
                &&& final(self).response_handler_registered == old(
                    self,
                ).response_handler_registered
            },
    {
        if raw_endpoint == 0 {
            return Err(EndpointCreationError::Unknown);
        }
        let ep = CoapEndpoint { kind, addr, raw_endpoint };
        self.endpoints.push(ep);
        Ok(ep)
    }

    /// Binds a plain-transport endpoint at `addr` from the engine's
    /// endpoint-creation outcome (`raw_endpoint`; zero for a failure).
    pub fn add_endpoint_udp(&mut self, addr: CoapAddress, raw_endpoint: u64) -> (r: Result<
        CoapEndpoint,
        EndpointCreationError,
    >)
        requires
            old(self).wf(),
        ensures
            final(self).wf(),
            raw_endpoint == 0 <==> r is Err,
            r matches Err(e) ==> e == EndpointCreationError::Unknown && *final(self) == *old(self),
            r matches Ok(ep) ==> {
                &&& ep == (CoapEndpoint { kind: CoapProtocol::Udp, addr, raw_endpoint })
                &&& final(self).endpoints@ == old(self).endpoints@.push(ep)
                &&& final(self).resources@ == old(self).resources@
                &&& final(self).client_sessions@ == old(self).client_sessions@
                &&& final(self).raw_context == old(self).raw_context
                &&& final(self).next_token == old(self).next_token
            },
    {
        self.add_endpoint(CoapProtocol::Udp, addr, raw_endpoint)
    }

    /// Binds a security-negotiating endpoint at `addr` from the engine's
    /// endpoint-creation outcome; the context must be able to negotiate
    /// security, which the server credential provider supplies.
    pub fn add_endpoint_dtls(&mut self, addr: CoapAddress, raw_endpoint: u64) -> (r: Result<
        CoapEndpoint,
        EndpointCreationError,
    >)
        requires
            old(self).wf(),
        ensures
            final(self).wf(),
            raw_endpoint == 0 <==> r is Err,
            r matches Err(e) ==> e == EndpointCreationError::Unknown && *final(self) == *old(self),
            r matches Ok(ep) ==> {
                &&& ep == (CoapEndpoint { kind: CoapProtocol::Dtls, addr, raw_endpoint })
                &&& final(self).endpoints@ == old(self).endpoints@.push(ep)
                &&& final(self).resources@ == old(self).resources@
                &&& final(self).client_sessions@ == old(self).client_sessions@
                &&& final(self).raw_context == old(self).raw_context
                &&& final(self).next_token == old(self).next_token
            },
    {
        self.add_endpoint(CoapProtocol::Dtls, addr, raw_endpoint)
    }

    /// Reliable-transport endpoints are declared but not implemented; this
    /// fails loudly instead of pretending to bind.
    pub fn add_endpoint_tcp(&mut self, _addr: CoapAddress) -> (r: Result<
        CoapEndpoint,
        EndpointCreationError,
    >)
        ensures
            *final(self) == *old(self),
            r == Err::<CoapEndpoint, EndpointCreationError>(EndpointCreationError::Unimplemented),
    {
        Err(EndpointCreationError::Unimplemented)
    }

    /// Secured reliable-transport endpoints are declared but not
    /// implemented; this fails loudly instead of pretending to bind.
    pub fn add_endpoint_tls(&mut self, _addr: CoapAddress) -> (r: Result<
        CoapEndpoint,
        EndpointCreationError,
    >)
        ensures
            *final(self) == *old(self),
            r == Err::<CoapEndpoint, EndpointCreationError>(EndpointCreationError::Unimplemented),
    {
        Err(EndpointCreationError::Unimplemented)
    }

    /// Takes ownership of a resource and records it; the native counterpart
    /// is registered with the engine by the shell, and registration is
    /// irreversible for the context's lifetime.
    pub fn add_resource(&mut self, res: CoapResource)
        requires
            old(self).wf(),
        ensures
            final(self).wf(),
            final(self).resources@ == old(self).resources@.push(res),
            final(self).endpoints@ == old(self).endpoints@,
            final(self).client_sessions@ == old(self).client_sessions@,
            final(self).raw_context == old(self).raw_context,
            final(self).next_token == old(self).next_token,
            final(self).server_crypto_attached == old(self).server_crypto_attached,
            final(self).server_psk == old(self).server_psk,
            final(self).block_mode == old(self).block_mode,
            final(self).response_handler_registered == old(self).response_handler_registered,
    {
        self.resources.push(res);
    }

    /// Whether a resource registered under exactly `path` exists.
    pub open spec fn spec_has_resource(&self, path: Seq<char>) -> bool {
        exists|i: int|
            0 <= i < self.resources@.len() && #[trigger] self.resources@[i].uri_path@ == path
    }

    /// Finds the first resource registered under exactly `uri_path`; `None`
    /// when no resource carries that path.
    pub fn resource_by_uri_path(&self, uri_path: &String) -> (r: Option<&CoapResource>)
        ensures
            r is Some <==> self.spec_has_resource(uri_path@),
            r matches Some(res) ==> exists|i: int|
                {
                    &&& 0 <= i < self.resources@.len()
                    &&& *res == #[trigger] self.resources@[i]
                    &&& self.resources@[i].uri_path@ == uri_path@
                    &&& forall|j: int| 0 <= j < i ==> #[trigger] self.resources@[j].uri_path@ != uri_path@
                },
    {
        let n: usize = self.resources.len();
        let mut i: usize = 0;
        while i < n
            invariant
                i <= n,
                n == self.resources@.len(),
                forall|j: int| 0 <= j < i ==> #[trigger] self.resources@[j].uri_path@ != uri_path@,
            decreases n - i,
        {
            if self.resources[i].uri_path == *uri_path {
                return Some(&self.resources[i]);
            }
            i = i + 1;
        }
        proof {
            if self.spec_has_resource(uri_path@) {
                let m: int = choose|m: int|
                    0 <= m < self.resources@.len() && #[trigger] self.resources@[m].uri_path@
                        == uri_path@;
                assert(self.resources@[m].uri_path@ != uri_path@);
            }
        }
        None
    }

    /// Attaches (or detaches) the server-side credential provider and, when
    /// an attached provider supplies initial material, installs that
    /// material as the context's server PSK configuration; without initial
    /// material the previously installed configuration stands.
    pub fn set_server_crypto_provider<P: CoapServerCryptoProvider>(&mut self, provider: Option<P>)
        requires
            old(self).wf(),
        ensures
            final(self).wf(),
            final(self).server_crypto_attached == provider is Some,
            match provider {
                None => final(self).server_psk == old(self).server_psk,
                Some(p) => match p.hint_for_sni(None) {
                    Some(v) => final(self).server_psk matches Some(d) && d@ == v,
                    None => final(self).server_psk == old(self).server_psk,
                },
            },
            final(self).endpoints@ == old(self).endpoints@,
            final(self).resources@ == old(self).resources@,
            final(self).client_sessions@ == old(self).client_sessions@,
            final(self).raw_context == old(self).raw_context,
            final(self).next_token == old(self).next_token,
            final(self).block_mode == old(self).block_mode,
            final(self).response_handler_registered == old(self).response_handler_registered,
    {
        match provider {
            None => {
                self.server_crypto_attached = false;
            },
            Some(p) => {
                self.server_crypto_attached = true;
                let mut p = p;
                let initial = p.provide_hint_for_sni(None);
                match initial {
                    Some(v) => {
                        self.server_psk = Some(v);
                    },
                    None => {},
                }
            },
        }
    }

    /// Whether a server-side credential provider is attached; the provider
    /// itself lives with the unverified shell, which consults it from the
    /// engine's per-handshake identity-validation callback.
    pub fn server_crypto_provider(&self) -> (r: bool)
        ensures
            r == self.server_crypto_attached,
    {
        self.server_crypto_attached
    }

    /// The endpoints owned by this context, in creation order.
    pub fn endpoints(&self) -> (r: &Vec<CoapEndpoint>)
        ensures
            r@ == self.endpoints@,
    {
        &self.endpoints
    }

    /// The identity of the native context, for the shell's shared engine
    /// accesses; valid exactly as long as this object lives.
    pub fn as_raw_context(&self) -> (r: u64)
        ensures
            r == self.raw_context,
    {
        self.raw_context
    }

    /// The identity of the native context, for the shell's exclusive engine
    /// accesses; valid exactly as long as this object lives.
    pub fn as_mut_raw_context(&mut self) -> (r: u64)
        ensures
            r == old(self).raw_context,
            *final(self) == *old(self),
    {
        self.raw_context
    }

    /// Interprets the outcome of one bounded round of engine I/O, timer
    /// expiry and callback dispatch: the engine reports the milliseconds it
    /// spent, or a negative count for an internal failure. The shell obtains
    /// the native timeout for the round from `io_timeout_value(timeout)`.
    pub fn do_io(&self, timeout: Option<CoapDuration>, spent_ms: i32) -> (r: Result<
        CoapDuration,
        IoProcessError,
    >)
        requires
            self.wf(),
            timeout matches Some(d) ==> d.wf(),
        ensures
            spent_ms < 0 <==> r is Err,
            r matches Err(e) ==> e == IoProcessError::Unknown,
            r matches Ok(d) ==> d.wf() && d.spec_millis() == spent_ms && d.nanos % NANOS_PER_MILLI
                == 0,
    {
        if spent_ms < 0 {
            return Err(IoProcessError::Unknown);
        }
        Ok(CoapDuration::from_millis(spent_ms as u64))
    }

    /// The teardown sequence for this context, in the order the engine's
    /// free logic requires: every endpoint is destroyed first (the engine's
    /// context-free call would free endpoint memory a second time), then
    /// every recorded client session's engine-internal reference is
    /// released, and the context itself is freed last. Resources are not
    /// reclaimed separately: the engine frees them together with the
    /// context.
    pub open spec fn teardown_plan(&self) -> Seq<CoapTeardownAction> {
        Seq::new(
            self.endpoints@.len(),
            |i: int|
                CoapTeardownAction::DestroyEndpoint {
                    raw_endpoint: self.endpoints@[i].raw_endpoint,
                },
        ) + Seq::new(
            self.client_sessions@.len(),
            |i: int|
                CoapTeardownAction::ReleaseSession {
                    raw_session: self.client_sessions@[i].session.raw_session,
                },
        ) + seq![CoapTeardownAction::FreeContext { raw_context: self.raw_context }]
    }

    /// Consumes the context and emits its teardown sequence for the shell
    /// to perform, after the shell has drained outstanding I/O (bounding
    /// each round's budget with `shutdown_remaining`). The host must hold
    /// sole ownership of every session token: a still-outstanding holder is
    /// a contract violation of the caller, not a recoverable condition, and
    /// `sole_ownership` reports it beforehand.
    pub fn shutdown(self) -> (plan: Vec<CoapTeardownAction>)
        requires
            self.wf(),
            self.spec_sole_ownership(),
        ensures
            plan@ == self.teardown_plan(),
    {
        let mut plan: Vec<CoapTeardownAction> = Vec::new();
        let ne: usize = self.endpoints.len();
        let mut i: usize = 0;
        while i < ne
            invariant
                i <= ne,
                ne == self.endpoints@.len(),
                plan@.len() == i,
                forall|j: int|
                    0 <= j < i ==> #[trigger] plan@[j] == (CoapTeardownAction::DestroyEndpoint {
                        raw_endpoint: self.endpoints@[j].raw_endpoint,
                    }),
            decreases ne - i,
        {
            plan.push(
                CoapTeardownAction::DestroyEndpoint {
                    raw_endpoint: self.endpoints[i].raw_endpoint,
                },
            );
            i = i + 1;
        }
        let ns: usize = self.client_sessions.len();
        let mut s: usize = 0;
        while s < ns
            invariant
                s <= ns,
                ns == self.client_sessions@.len(),
                ne == self.endpoints@.len(),
                plan@.len() == ne + s,
                forall|j: int|
                    0 <= j < ne ==> #[trigger] plan@[j] == (CoapTeardownAction::DestroyEndpoint {
                        raw_endpoint: self.endpoints@[j].raw_endpoint,
                    }),
                forall|j: int|
                    0 <= j < s ==> #[trigger] plan@[ne + j] == (CoapTeardownAction::ReleaseSession {
                        raw_session: self.client_sessions@[j].session.raw_session,
                    }),
            decreases ns - s,
        {
            plan.push(
                CoapTeardownAction::ReleaseSession {
                    raw_session: self.client_sessions[s].session.raw_session,
                },
            );
            s = s + 1;
        }
        plan.push(CoapTeardownAction::FreeContext { raw_context: self.raw_context });
        proof {
            let tp = self.teardown_plan();
            assert(plan@.len() == tp.len());
            assert forall|j: int| 0 <= j < tp.len() implies plan@[j] == tp[j] by {
                if j < ne {
                    assert(plan@[j] == (CoapTeardownAction::DestroyEndpoint {
                        raw_endpoint: self.endpoints@[j].raw_endpoint,
                    }));
                } else if j < ne + ns {
                    assert(plan@[ne + (j - ne)] == (CoapTeardownAction::ReleaseSession {
                        raw_session: self.client_sessions@[j - ne].session.raw_session,
                    }));
                }
            }
            assert(plan@ =~= tp);
        }
        plan
    }
}

/// The next wait budget of the shutdown drain loop: an unbounded budget
/// stays unbounded, a bounded one shrinks by the time one I/O round spent.
pub fn shutdown_remaining(remaining: Option<CoapDuration>, spent: CoapDuration) -> (r: Option<
    CoapDuration,
>)
    requires
        spent.wf(),
        remaining matches Some(d) ==> d.wf() && spent.spec_nanos() <= d.spec_nanos(),
    ensures
        match remaining {
            None => r is None,
            Some(d) => r matches Some(x) && x.wf() && x.spec_nanos() == d.spec_nanos()
                - spent.spec_nanos(),
        },
{
    match remaining {
        None => None,
        Some(d) => {
            let x = d.checked_sub(&spent);
            match x {
                Some(v) => Some(v),
                None => {
                    proof {
                        assert(false);
                    }
                    None
                },
            }
        },
    }
}

/// Teardown destroys every endpoint strictly before it frees the context:
/// the endpoint's destroy action stands at the endpoint's own position in
/// the plan, and the context-free action stands last, strictly after it.
pub proof fn lemma_endpoint_destroyed_before_context_free(ctx: CoapContext, i: int)
    requires
        0 <= i < ctx.endpoints@.len(),
    ensures
        ctx.teardown_plan()[i] == (CoapTeardownAction::DestroyEndpoint {
            raw_endpoint: ctx.endpoints@[i].raw_endpoint,
        }),
        ctx.teardown_plan().last() == (CoapTeardownAction::FreeContext {
            raw_context: ctx.raw_context,
        }),
        i < ctx.teardown_plan().len() - 1,
{
}

/// Teardown releases every recorded client session strictly after all
/// endpoint destroys and strictly before the context itself is freed.
pub proof fn lemma_session_released_before_context_free(ctx: CoapContext, i: int)
    requires
        0 <= i < ctx.client_sessions@.len(),
    ensures
        ctx.teardown_plan()[ctx.endpoints@.len() + i] == (CoapTeardownAction::ReleaseSession {
            raw_session: ctx.client_sessions@[i].session.raw_session,
        }),
        ctx.endpoints@.len() + i < ctx.teardown_plan().len() - 1,
        ctx.teardown_plan().last() == (CoapTeardownAction::FreeContext {
            raw_context: ctx.raw_context,
        }),
{
}

/// The raw identity of a live session token round-trips: recovering a
/// handle from the identity the token was converted to names the same
/// session entry, and neither conversion involves any state, so no
/// reference count moves.
pub proof fn lemma_token_raw_round_trip(ctx: CoapContext, handle: CoapSessionHandle)
    requires
        ctx.wf(),
        ctx.has_token(handle.token_id),
    ensures
        spec_token_from_raw(spec_token_to_raw(handle)) == handle,
        ctx.has_token(spec_token_to_raw(handle)),
        ctx.token_entry(spec_token_from_raw(spec_token_to_raw(handle)).token_id) == ctx.token_entry(
            handle.token_id,
        ),
{
}

/// The raw identity a session token converts to.
pub open spec fn spec_token_to_raw(handle: CoapSessionHandle) -> u64 {
    handle.token_id
}

/// The handle recovered from a raw identity.
pub open spec fn spec_token_from_raw(raw: u64) -> CoapSessionHandle {
    CoapSessionHandle { token_id: raw }
}

/// The millisecond timeout value handed to the engine's single-pass I/O
/// call for an optional caller timeout: the indefinite-wait sentinel when no
/// timeout is given; otherwise the whole-millisecond count rounded up by one
/// (so a bounded wait never becomes the sentinel), by one more when a
/// sub-second remainder exists, and saturating at the largest representable
/// value.
pub open spec fn spec_io_timeout(timeout: Option<CoapDuration>) -> u32 {
    match timeout {
        None => COAP_IO_WAIT,
        Some(d) => {
            let base: u32 = if d.spec_millis() + 1 > u32::MAX {
                u32::MAX
            } else {
                (d.spec_millis() + 1) as u32
            };
            if d.nanos > 0 {
                if base == u32::MAX {
                    u32::MAX
                } else {
                    (base + 1) as u32
                }
            } else {
                base
            }
        },
    }
}

/// Converts an optional caller timeout into the engine's native millisecond
/// representation; see `spec_io_timeout` for the exact value.
pub fn io_timeout_value(timeout: Option<CoapDuration>) -> (r: u32)
    requires
        timeout matches Some(d) ==> d.wf(),
    ensures
        r == spec_io_timeout(timeout),
{
    match timeout {
        None => COAP_IO_WAIT,
        Some(d) => {
            let ms: u128 = d.as_millis();
            let base: u32 = if ms + 1 > u32::MAX as u128 {
                u32::MAX
            } else {
                (ms + 1) as u32
            };
            if d.subsec_nanos() > 0 {
                if base == u32::MAX {
                    u32::MAX
                } else {
                    base + 1
                }
            } else {
                base
            }
        },
    }
}

/// A timeout with a sub-millisecond remainder is converted to strictly more
/// than its whole-millisecond floor, so a bounded wait can never collapse
/// into a zero-length busy wait. (A duration whose floor already reaches the
/// largest representable value saturates there instead.)
pub proof fn lemma_sub_millisecond_timeout_rounds_up(d: CoapDuration)
    requires
        d.wf(),
        d.nanos % NANOS_PER_MILLI != 0,
        d.spec_millis() < u32::MAX,
    ensures
        spec_io_timeout(Some(d)) > d.spec_millis(),
{
    assert(d.nanos > 0);
}

} // verus!
