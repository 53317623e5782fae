//! Verified core of a single-command remote shell client for RouterOS
//! devices: target settings, the two-stage authentication negotiation,
//! and the drain-before-status command execution protocol, each modelled
//! as data plus pure transition functions with proved contracts.

pub mod connect;
pub mod errors;
pub mod executor;
pub mod settings;

use vstd::prelude::*;

verus! {

} // verus!
