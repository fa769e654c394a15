//! Price-oracle data shapes: which oracle a price came from, and the stub
//! record used where no live feed exists.

mod pyth;

pub use pyth::{Oracles, StubOracle};
