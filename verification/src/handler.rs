//! Command entry points reserved for embedders.
//!
//! These handlers are part of the embedding interface; they take a run
//! configuration and currently define no behavior of their own, as the
//! corresponding commands are driven entirely by their callers.

use vstd::prelude::*;
use crate::option::ScanOption;

verus! {

/// Entry point of the ping command.  Defines no behavior of its own.
pub fn handle_ping(_opt: ScanOption) {
}

/// Entry point of the traceroute command.  Defines no behavior of its
/// own.
pub fn handle_trace(_opt: ScanOption) {
}

/// Entry point of the domain-scan command.  Defines no behavior of its
/// own.
pub fn handle_domain_scan(_opt: ScanOption) {
}

/// Entry point of the URI-scan command.  Defines no behavior of its own.
pub fn handle_uri_scan(_opt: ScanOption) {
}

} // verus!
