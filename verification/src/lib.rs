//! Atomic data-layer types of a register-based virtual machine: a
//! word-aligned byte codec and the key/value storage interfaces.

use vstd::prelude::*;

pub mod bytes;
pub mod coin_id;
pub mod data;
pub mod types;

verus! {

/// Register ID type.
pub type RegisterId = usize;

/// Register value type.
pub type Word = u64;

} // verus!
