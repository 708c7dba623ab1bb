//! Core of a cartridge-dumper device: the dump engine's decision logic and the
//! virtual-filesystem protocol engine, with their behaviour stated in contracts.
//!
//! Hardware access (bus lines, packet transport, timers) lives outside this
//! crate; everything here is a pure function of its inputs, so the bus
//! sequences, the container protocol and the packet framing are verified.

pub mod dumper;
pub mod mtp;
pub mod mtp_handler;
pub mod wire;

use vstd::prelude::*;

verus! {

} // verus!
