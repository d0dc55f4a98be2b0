//! Endpoints: local listening transport bindings owned by a context.

use vstd::prelude::*;

use crate::types::CoapAddress;
use crate::types::CoapProtocol;

verus! {

/// One local listening transport binding. The native endpoint object behind
/// `raw_endpoint` is owned by the context that created it and must be
/// destroyed strictly before the context's own native handle is freed.
#[derive(Clone, Copy, PartialEq, Eq, Structural, Debug)]
pub struct CoapEndpoint {
    /// Transport kind of the binding.
    pub kind: CoapProtocol,
    /// Local address the endpoint is bound to.
    pub addr: CoapAddress,
    /// Identity of the native endpoint object; never zero for a live one.
    pub raw_endpoint: u64,
}

} // verus!
