use vstd::prelude::*;

verus! {

/// A 32-byte commitment or identifier (document hash, object id), held as two
/// 128-bit halves so that every one of the 2^256 values is representable.
#[derive(Clone, Copy, PartialEq, Eq, Debug, Structural)]
pub struct Bytes32 {
    pub hi: u128,
    pub lo: u128,
}

impl Bytes32 {
    /// The all-zero value: an unset id or an absent document.
    pub open spec fn spec_zero() -> Bytes32 {
        Bytes32 { hi: 0, lo: 0 }
    }

    pub open spec fn spec_is_zero(self) -> bool {
        self == Bytes32::spec_zero()
    }

    pub fn zero() -> (r: Bytes32)
        ensures
            r == Bytes32::spec_zero(),
    {
        Bytes32 { hi: 0, lo: 0 }
    }

    pub fn is_zero(&self) -> (r: bool)
        ensures
            r == self.spec_is_zero(),
    {
        self.hi == 0 && self.lo == 0
    }
}

/// A party or contract on the ledger, identified by its 32-byte key.
#[derive(Clone, Copy, PartialEq, Eq, Debug, Structural)]
pub struct Address {
    pub key: Bytes32,
}

} // verus!
