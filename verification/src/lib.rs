//! Scan orchestration and target resolution engine for a multi-stage
//! network reconnaissance tool.
//!
//! The crate covers the logic of a scan run: turning a raw target/port
//! specification into a validated set of probe targets, sequencing the
//! dependent probe stages, scoring captured TCP/ICMP fingerprints against a
//! signature database, and folding per-stage outputs into the final result
//! records.  The probe engines that put packets on the wire are external
//! collaborators: callers run them and hand their outputs to this crate.

use vstd::prelude::*;

pub mod addr;
pub mod fingerprint;
pub mod handler;
pub mod option;
pub mod resolver;
pub mod result;
pub mod scan;

verus! {

/// A fixed list of well-known ports used by embedding tests.
pub fn get_test_ports() -> (r: Vec<u16>)
    ensures
        r@ == seq![20u16, 21u16, 22u16, 23u16, 25u16, 53u16, 80u16, 110u16, 119u16, 123u16, 143u16, 161u16, 194u16, 443u16],
{
    let mut r: Vec<u16> = Vec::new();
    r.push(20);
    r.push(21);
    r.push(22);
    r.push(23);
    r.push(25);
    r.push(53);
    r.push(80);
    r.push(110);
    r.push(119);
    r.push(123);
    r.push(143);
    r.push(161);
    r.push(194);
    r.push(443);
    assert(r@ =~= seq![20u16, 21u16, 22u16, 23u16, 25u16, 53u16, 80u16, 110u16, 119u16, 123u16, 143u16, 161u16, 194u16, 443u16]);
    r
}

} // verus!
