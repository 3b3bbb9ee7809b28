//! The pool record that a quote reads.
use crate::fees::PoolFees;
use crate::Address;
use vstd::prelude::*;

verus! {

/// Whether a pool's activation point is a slot or a timestamp.
#[derive(Clone, Copy, Debug, PartialEq, Eq, Structural)]
pub enum ActivationType {
    Slot,
    Timestamp,
}

/// The activation kind that an on-chain tag stands for: 0 for slots, 1 for timestamps.
pub open spec fn activation_type_of(tag: u8) -> Option<ActivationType> {
    if tag == 0 {
        Some(ActivationType::Slot)
    } else if tag == 1 {
        Some(ActivationType::Timestamp)
    } else {
        None
    }
}

impl ActivationType {
    /// Decode the on-chain tag of an activation kind.
    pub fn from_u8(tag: u8) -> (r: Option<ActivationType>)
        ensures
            r == activation_type_of(tag),
    {
        if tag == 0 {
            Some(ActivationType::Slot)
        } else if tag == 1 {
            Some(ActivationType::Timestamp)
        } else {
            None
        }
    }
}

/// When a pool starts accepting swaps.
#[derive(Clone, Copy)]
pub struct Bootstrapping {
    /// Slot or timestamp from which swaps are allowed.
    pub activation_point: u64,
    /// Unit of `activation_point`.
    pub activation_type: ActivationType,
}

/// The pool state that a quote reads.
#[derive(Clone, Copy)]
pub struct Pool {
    pub token_a_mint: Address,
    pub token_b_mint: Address,
    /// A disabled pool refuses swaps.
    pub enabled: bool,
    pub fees: PoolFees,
    pub bootstrapping: Bootstrapping,
}

} // verus!
