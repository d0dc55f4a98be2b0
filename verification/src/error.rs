//! Error conditions surfaced to the caller, one distinguishable kind per
//! engine object whose creation can fail, plus the I/O-processing failure.

use vstd::prelude::*;

verus! {

/// Allocating the native context failed.
#[derive(Clone, Copy, PartialEq, Eq, Structural, Debug)]
pub enum ContextCreationError {
    Unknown,
}

/// Creating or binding a native endpoint failed, or the requested transport
/// is not implemented yet.
#[derive(Clone, Copy, PartialEq, Eq, Structural, Debug)]
pub enum EndpointCreationError {
    Unknown,
    Unimplemented,
}

/// Creating a native client session failed.
#[derive(Clone, Copy, PartialEq, Eq, Structural, Debug)]
pub enum SessionCreationError {
    Unknown,
}

/// The engine's single-pass I/O call reported an internal failure.
#[derive(Clone, Copy, PartialEq, Eq, Structural, Debug)]
pub enum IoProcessError {
    Unknown,
}

} // verus!
