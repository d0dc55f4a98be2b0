//! Pre-shared-key credential material and the pluggable providers that the
//! engine's handshake callbacks consult for it.

use vstd::prelude::*;

verus! {

/// Mathematical content of client PSK material: the identity and key byte
/// sequences handed to the engine's handshake.
pub struct CoapCryptoPskInfoView {
    pub identity: Seq<u8>,
    pub key: Seq<u8>,
}

/// Client PSK material: an identity plus the key proving it.
#[derive(Debug)]
pub struct CoapCryptoPskInfo {
    pub identity: Vec<u8>,
    pub key: Vec<u8>,
}

impl View for CoapCryptoPskInfo {
    type V = CoapCryptoPskInfoView;

    open spec fn view(&self) -> CoapCryptoPskInfoView {
        CoapCryptoPskInfoView { identity: self.identity@, key: self.key@ }
    }
}

impl Clone for CoapCryptoPskInfo {
    fn clone(&self) -> (r: Self)
        ensures
            r@ == self@,
    {
        let identity = clone_bytes(&self.identity);
        let key = clone_bytes(&self.key);
        CoapCryptoPskInfo { identity, key }
    }
}

/// Mathematical content of server PSK material: the hint and key byte
/// sequences installed in the engine's server-side PSK configuration.
pub struct CoapCryptoPskDataView {
    pub hint: Seq<u8>,
    pub key: Seq<u8>,
}

/// Server PSK material: an identity hint plus the key that goes with it.
#[derive(Debug)]
pub struct CoapCryptoPskData {
    pub hint: Vec<u8>,
    pub key: Vec<u8>,
}

impl View for CoapCryptoPskData {
    type V = CoapCryptoPskDataView;

    open spec fn view(&self) -> CoapCryptoPskDataView {
        CoapCryptoPskDataView { hint: self.hint@, key: self.key@ }
    }
}

impl Clone for CoapCryptoPskData {
    fn clone(&self) -> (r: Self)
        ensures
            r@ == self@,
    {
        let hint = clone_bytes(&self.hint);
        let key = clone_bytes(&self.key);
        CoapCryptoPskData { hint, key }
    }
}

/// Byte-for-byte copy of a byte vector.
fn clone_bytes(v: &Vec<u8>) -> (r: Vec<u8>)
    ensures
        r@ == v@,
{
    let r = v.clone();
    proof {
        assert(r@ =~= v@);
    }
    r
}

/// Content of an optional piece of client PSK material.
pub open spec fn opt_psk_info_view(info: Option<CoapCryptoPskInfo>) -> Option<CoapCryptoPskInfoView> {
    match info {
        Some(i) => Some(i@),
        None => None,
    }
}

/// Content of an optional byte vector.
pub open spec fn opt_bytes_view(bytes: Option<&Vec<u8>>) -> Option<Seq<u8>> {
    match bytes {
        Some(b) => Some(b@),
        None => None,
    }
}

/// Client-side credential source, consulted when the engine's handshake
/// requests PSK material for an identity hint (or, with no hint, the default
/// material used to open the handshake).
pub trait CoapClientCryptoProvider {
    /// The material this provider supplies for a given hint; `None` stands
    /// for the default material requested before any hint arrived.
    spec fn info_for_hint(&self, hint: Option<Seq<u8>>) -> Option<CoapCryptoPskInfoView>;

    fn provide_info_for_hint(&mut self, hint: Option<&Vec<u8>>) -> (r: Option<CoapCryptoPskInfo>)
        ensures
            opt_psk_info_view(r) == old(self).info_for_hint(opt_bytes_view(hint)),
    ;
}

/// Content of an optional piece of server PSK material.
pub open spec fn opt_psk_data_view(data: Option<CoapCryptoPskData>) -> Option<CoapCryptoPskDataView> {
    match data {
        Some(d) => Some(d@),
        None => None,
    }
}

/// Server-side credential source, consulted per incoming handshake for the
/// hint and key to offer a peer (keyed by server-name indication, or `None`
/// for the initial configuration installed up front).
pub trait CoapServerCryptoProvider {
    /// The material this provider supplies for a given server name; `None`
    /// stands for the initial configuration requested at install time.
    spec fn hint_for_sni(&self, sni: Option<Seq<u8>>) -> Option<CoapCryptoPskDataView>;

    fn provide_hint_for_sni(&mut self, sni: Option<&Vec<u8>>) -> (r: Option<CoapCryptoPskData>)
        ensures
            opt_psk_data_view(r) == old(self).hint_for_sni(opt_bytes_view(sni)),
    ;
}

/// A provider that always answers with one fixed piece of material,
/// regardless of the hint or server name it is asked for.
#[derive(Debug)]
pub struct CoapStaticCryptoProvider {
    /// The identity (or hint) bytes this provider hands out.
    pub identity: Vec<u8>,
    /// The key bytes this provider hands out.
    pub key: Vec<u8>,
}

impl CoapStaticCryptoProvider {
    pub fn new(identity: Vec<u8>, key: Vec<u8>) -> (r: CoapStaticCryptoProvider)
        ensures
            r.identity@ == identity@,
            r.key@ == key@,
    {
        CoapStaticCryptoProvider { identity, key }
    }
}

impl CoapClientCryptoProvider for CoapStaticCryptoProvider {
    open spec fn info_for_hint(&self, hint: Option<Seq<u8>>) -> Option<CoapCryptoPskInfoView> {
        Some(CoapCryptoPskInfoView { identity: self.identity@, key: self.key@ })
    }

    fn provide_info_for_hint(&mut self, hint: Option<&Vec<u8>>) -> (r: Option<CoapCryptoPskInfo>) {
        Some(
            CoapCryptoPskInfo {
                identity: clone_bytes(&self.identity),
                key: clone_bytes(&self.key),
            },
        )
    }
}

impl CoapServerCryptoProvider for CoapStaticCryptoProvider {
    open spec fn hint_for_sni(&self, sni: Option<Seq<u8>>) -> Option<CoapCryptoPskDataView> {
        Some(CoapCryptoPskDataView { hint: self.identity@, key: self.key@ })
    }

    fn provide_hint_for_sni(&mut self, sni: Option<&Vec<u8>>) -> (r: Option<CoapCryptoPskData>) {
        Some(
            CoapCryptoPskData { hint: clone_bytes(&self.identity), key: clone_bytes(&self.key) },
        )
    }
}

} // verus!
