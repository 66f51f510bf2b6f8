//! Placeholders of the validator's consensus drivers.
//!
//! The drivers poll asynchronous protocols that are not yet specified; only
//! their construction exists. The asynchronous polling stays outside the
//! library.

use vstd::prelude::*;

verus! {

/// The driver that produces the next macro block.
pub struct Tendermint;

impl Tendermint {
    /// A fresh driver.
    pub fn new() -> (r: Self)
    {
        Self {  }
    }
}

/// The driver that aggregates a view change's signatures.
pub struct ViewChangeHandel;

} // verus!
