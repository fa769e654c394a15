//! Oracle kinds and the stub price record.

use vstd::prelude::*;

verus! {

/// Which oracle a price record comes from.
#[derive(Clone, Copy, Debug, PartialEq, Eq, Structural)]
pub enum Oracles {
    Pyth,
    StubOracle,
    Unknown,
}

/// A stub price record: a magic marker, a binary fixed-point price held as
/// its raw 128-bit value (48 fractional bits), and the slot of the last
/// update.
#[derive(Clone, Copy, Debug, PartialEq, Eq, Structural)]
pub struct StubOracle {
    pub magic: u32,
    /// The price's raw fixed-point value: the price times two to the 48th.
    pub price: i128,
    pub last_update: u64,
}

} // verus!
