//! Fixed-size values of the ledger: hashes, addresses and 256-bit numbers.

use vstd::prelude::*;

verus! {

/// A hash of 32 bytes. Hashes are ordered byte by byte, the first byte
/// counting most.
#[derive(Clone, Copy, Debug, PartialEq, Eq, PartialOrd, Ord, Hash)]
pub struct H256(pub [u8; 32]);

/// An account address of 20 bytes. Addresses are ordered byte by byte, the
/// first byte counting most.
#[derive(Clone, Copy, Debug, PartialEq, Eq, PartialOrd, Ord, Hash)]
pub struct Address(pub [u8; 20]);

/// An unsigned number of 256 bits, as four words, the lowest first.
#[derive(Clone, Copy, Debug, PartialEq, Eq, Hash)]
pub struct U256(pub [u64; 4]);

impl View for H256 {
    type V = Seq<u8>;

    open spec fn view(&self) -> Seq<u8> {
        self.0@
    }
}

impl View for Address {
    type V = Seq<u8>;

    open spec fn view(&self) -> Seq<u8> {
        self.0@
    }
}

impl View for U256 {
    type V = nat;

    open spec fn view(&self) -> nat {
        (self.0@[0] + self.0@[1] * 0x1_0000_0000_0000_0000 + self.0@[2]
            * 0x1_0000_0000_0000_0000_0000_0000_0000_0000 + self.0@[3]
            * 0x1_0000_0000_0000_0000_0000_0000_0000_0000_0000_0000_0000_0000) as nat
    }
}

impl H256 {
    /// The hash whose bytes are all zero.
    pub fn zero() -> (hash: Self)
        ensures
            hash@ == Seq::new(32, |i: int| 0u8),
    {
        let hash = H256([0u8;32]);
        assert(hash@ =~= Seq::new(32, |i: int| 0u8));
        hash
    }

    /// The 32 bytes of the hash.
    pub fn as_bytes(&self) -> (bytes: &[u8; 32])
        ensures
            bytes@ == self@,
    {
        &self.0
    }
}

impl U256 {
    /// The number zero.
    pub fn zero() -> (number: Self)
        ensures
            number@ == 0,
    {
        U256([0u64, 0u64, 0u64, 0u64])
    }

    /// The number `low`.
    pub fn from_u64(low: u64) -> (number: Self)
        ensures
            number@ == low,
    {
        U256([low, 0u64, 0u64, 0u64])
    }

    /// Whether the number is zero.
    pub fn is_zero(&self) -> (zero: bool)
        ensures
            zero == (self@ == 0),
    {
        self.0[0] == 0 && self.0[1] == 0 && self.0[2] == 0 && self.0[3] == 0
    }
}

} // verus!
