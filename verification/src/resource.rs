//! Resources: addressable CoAP resource paths registered with a context.

use vstd::prelude::*;

verus! {

/// One addressable resource path. Handler logic and application data are
/// opaque callback state that lives with the unverified shell, keyed by the
/// native resource identity; the model records what the lookup and teardown
/// logic needs: the URI path and that identity.
#[derive(Debug)]
pub struct CoapResource {
    /// URI path under which the resource is addressable, matched exactly.
    pub uri_path: String,
    /// Identity of the native resource object; never zero for a live one.
    pub raw_resource: u64,
}

impl CoapResource {
    pub fn new(uri_path: String, raw_resource: u64) -> (r: CoapResource)
        ensures
            r.uri_path@ == uri_path@,
            r.raw_resource == raw_resource,
    {
        CoapResource { uri_path, raw_resource }
    }

    /// The URI path under which this resource was registered.
    pub fn uri_path(&self) -> (r: &String)
        ensures
            r@ == self.uri_path@,
    {
        &self.uri_path
    }

    /// The native resource identity, for the shell's engine calls.
    pub fn raw_resource(&self) -> (r: u64)
        ensures
            r == self.raw_resource,
    {
        self.raw_resource
    }
}

} // verus!
