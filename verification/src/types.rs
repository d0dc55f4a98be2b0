//! Plain value types passed across the engine boundary: durations, socket
//! addresses and transport selectors, together with the engine's wire-level
//! configuration constants.

use vstd::prelude::*;

verus! {

/// Number of nanoseconds in one second.
pub const NANOS_PER_SEC: u32 = 1_000_000_000;

/// Number of nanoseconds in one millisecond.
pub const NANOS_PER_MILLI: u32 = 1_000_000;

/// Number of milliseconds in one second.
pub const MILLIS_PER_SEC: u64 = 1_000;

/// Engine sentinel for "wait indefinitely" in the single-pass I/O call.
pub const COAP_IO_WAIT: u32 = 0;

/// Engine flag: let the engine handle block-wise transfers itself.
pub const COAP_BLOCK_USE_LIBCOAP: u8 = 0x01;

/// Engine flag: deliver block-wise bodies as one single body.
pub const COAP_BLOCK_SINGLE_BODY: u8 = 0x02;

/// Version tag of the engine's pre-shared-key setup structures.
pub const COAP_DTLS_SPSK_SETUP_VERSION: u8 = 1;

/// A span of time as whole seconds plus a sub-second remainder in
/// nanoseconds, mirroring the host representation of the timeouts that
/// callers hand to the I/O loop.
#[derive(Clone, Copy, PartialEq, Eq, Structural, Debug)]
pub struct CoapDuration {
    pub secs: u64,
    pub nanos: u32,
}

impl CoapDuration {
    /// A duration is well formed when its sub-second remainder is below one
    /// second.
    pub open spec fn wf(&self) -> bool {
        self.nanos < NANOS_PER_SEC
    }

    /// Total length in nanoseconds.
    pub open spec fn spec_nanos(&self) -> int {
        self.secs * (NANOS_PER_SEC as int) + self.nanos
    }

    /// Length in whole milliseconds, rounded towards zero.
    pub open spec fn spec_millis(&self) -> int {
        self.secs * (MILLIS_PER_SEC as int) + (self.nanos as int) / (NANOS_PER_MILLI as int)
    }

    pub fn new(secs: u64, nanos: u32) -> (r: CoapDuration)
        requires
            nanos < NANOS_PER_SEC,
        ensures
            r == (CoapDuration { secs, nanos }),
            r.wf(),
    {
        CoapDuration { secs, nanos }
    }

    pub fn from_millis(ms: u64) -> (r: CoapDuration)
        ensures
            r.wf(),
            r.spec_millis() == ms,
            r.nanos % NANOS_PER_MILLI == 0,
    {
        let secs: u64 = ms / MILLIS_PER_SEC;
        let nanos: u32 = ((ms % MILLIS_PER_SEC) as u32) * NANOS_PER_MILLI;
        proof {
            assert(ms % MILLIS_PER_SEC < 1000) by {
                assert(MILLIS_PER_SEC == 1000);
            }
            assert(nanos == (ms % MILLIS_PER_SEC) * NANOS_PER_MILLI);
            vstd::arithmetic::div_mod::lemma_div_multiples_vanish(
                (ms % MILLIS_PER_SEC) as int,
                NANOS_PER_MILLI as int,
            );
            assert((nanos as int) / (NANOS_PER_MILLI as int) == ms % MILLIS_PER_SEC) by {
                assert(nanos as int == (NANOS_PER_MILLI as int) * ((ms % MILLIS_PER_SEC) as int));
            }
            assert(secs * (MILLIS_PER_SEC as int) + (ms % MILLIS_PER_SEC) == ms) by {
                assert(ms == MILLIS_PER_SEC * (ms / MILLIS_PER_SEC) + ms % MILLIS_PER_SEC);
            }
        }
        CoapDuration { secs, nanos }
    }

    /// Length in whole milliseconds, rounded towards zero.
    pub fn as_millis(&self) -> (r: u128)
        requires
            self.wf(),
        ensures
            r == self.spec_millis(),
    {
        proof {
            assert((self.secs as int) * (MILLIS_PER_SEC as int)
                <= 0xffff_ffff_ffff_ffff * 1000) by (nonlinear_arith)
                requires self.secs <= 0xffff_ffff_ffff_ffff;
        }
        (self.secs as u128) * (MILLIS_PER_SEC as u128) + ((self.nanos / NANOS_PER_MILLI) as u128)
    }

    /// Sub-second remainder in nanoseconds.
    pub fn subsec_nanos(&self) -> (r: u32)
        ensures
            r == self.nanos,
    {
        self.nanos
    }

    /// Duration subtraction; `None` when `other` is longer than `self`.
    pub fn checked_sub(&self, other: &CoapDuration) -> (r: Option<CoapDuration>)
        requires
            self.wf(),
            other.wf(),
        ensures
            match r {
                Some(d) => d.wf() && d.spec_nanos() == self.spec_nanos() - other.spec_nanos()
                    && self.spec_nanos() >= other.spec_nanos(),
                None => self.spec_nanos() < other.spec_nanos(),
            },
    {
        if self.secs < other.secs {
            proof {
                assert(self.spec_nanos() < other.spec_nanos()) by {
                    assert(self.secs + 1 <= other.secs);
                    assert(self.secs * (NANOS_PER_SEC as int) + (NANOS_PER_SEC as int)
                        <= other.secs * (NANOS_PER_SEC as int)) by (nonlinear_arith)
                        requires self.secs + 1 <= other.secs;
                }
            }
            None
        } else if self.nanos >= other.nanos {
            proof {
                assert(self.secs * (NANOS_PER_SEC as int) >= other.secs * (NANOS_PER_SEC as int))
                    by (nonlinear_arith)
                    requires self.secs >= other.secs;
                assert((self.secs - other.secs) * (NANOS_PER_SEC as int)
                    == self.secs * (NANOS_PER_SEC as int) - other.secs * (NANOS_PER_SEC as int))
                    by (nonlinear_arith);
            }
            Some(CoapDuration { secs: self.secs - other.secs, nanos: self.nanos - other.nanos })
        } else if self.secs == other.secs {
            None
        } else {
            proof {
                assert((self.secs - other.secs) * (NANOS_PER_SEC as int)
                    == self.secs * (NANOS_PER_SEC as int) - other.secs * (NANOS_PER_SEC as int))
                    by (nonlinear_arith);
                assert((self.secs - other.secs - 1) * (NANOS_PER_SEC as int)
                    == self.secs * (NANOS_PER_SEC as int) - other.secs * (NANOS_PER_SEC as int)
                        - (NANOS_PER_SEC as int)) by (nonlinear_arith);
            }
            Some(
                CoapDuration {
                    secs: self.secs - other.secs - 1,
                    nanos: self.nanos + (NANOS_PER_SEC - other.nanos),
                },
            )
        }
    }
}

/// One peer or local socket address: an IPv4 or IPv6 host part plus a port.
#[derive(Clone, Copy, PartialEq, Eq, Structural, Debug)]
pub struct CoapAddress {
    pub is_ipv6: bool,
    pub ip: u128,
    pub port: u16,
}

impl CoapAddress {
    /// An IPv4 host part fits in 32 bits.
    pub open spec fn wf(&self) -> bool {
        !self.is_ipv6 ==> self.ip < 0x1_0000_0000
    }

    pub fn new_v4(ip: u32, port: u16) -> (r: CoapAddress)
        ensures
            r == (CoapAddress { is_ipv6: false, ip: ip as u128, port }),
            r.wf(),
    {
        CoapAddress { is_ipv6: false, ip: ip as u128, port }
    }

    pub fn new_v6(ip: u128, port: u16) -> (r: CoapAddress)
        ensures
            r == (CoapAddress { is_ipv6: true, ip, port }),
            r.wf(),
    {
        CoapAddress { is_ipv6: true, ip, port }
    }
}

/// Transport protocol selector for endpoints and client sessions.
#[derive(Clone, Copy, PartialEq, Eq, Structural, Debug)]
pub enum CoapProtocol {
    Udp,
    Dtls,
    Tcp,
    Tls,
}

} // verus!
