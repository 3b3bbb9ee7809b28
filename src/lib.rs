//! Quote computation for swaps against a constant-product pool whose two
//! reserves are held in share-based vaults with time-decaying locked profit.
use vstd::prelude::*;

pub mod address;
pub mod fees;
pub mod pool;
pub mod quote;
pub mod swap;
pub mod vault;

verus! {

/// A 32-byte on-chain account address.
pub type Address = [u8; 32];

/// Why a checked arithmetic step failed.
#[derive(Clone, Copy, Debug, PartialEq, Eq, Structural)]
pub enum ArithmeticError {
    /// A result does not fit its type.
    Overflow,
    /// A subtraction went below zero.
    Underflow,
    /// A divisor was zero.
    DivideByZero,
}

/// Whether two addresses are the same bytes.
pub fn same_address(a: &Address, b: &Address) -> (r: bool)
    ensures
        r == (a@ == b@),
{
    let mut i: usize = 0;
    while i < 32
        invariant
            0 <= i <= 32,
            a@.len() == 32,
            b@.len() == 32,
            forall|j: int| 0 <= j < i ==> a@[j] == b@[j],
        decreases 32 - i,
    {
        if a[i] != b[i] {
            return false;
        }
        i = i + 1;
    }
    assert(a@ =~= b@);
    true
}

} // verus!
