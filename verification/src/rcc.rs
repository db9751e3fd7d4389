//! Clock gating.  The peripheral clocks this crate relies on are already
//! enabled when the firmware starts, so a gate always reports enabled and
//! the enable and disable requests have no effect.

use vstd::prelude::*;

verus! {

/// A peripheral's clock gate, as seen from the Cortex-M4 side.
#[derive(Clone, Copy, Debug, PartialEq, Eq, Structural)]
pub struct PeripheralClock {
    /// Whether this clock gate is open.  Every one this crate relies on is
    /// open at power-up; constructors record that and nothing clears it.
    pub enabled: bool,
}

impl PeripheralClock {
    pub fn new() -> (r: Self)
        ensures
            r.enabled,
    {
        PeripheralClock { enabled: true }
    }

    pub fn is_enabled(&self) -> (r: bool)
        ensures
            r == self.enabled,
    {
        self.enabled
    }

    /// Requesting the clock on has no effect: it is already enabled.
    pub fn enable(&self) {
    }

    /// Requesting the clock off has no effect: closing a clock gate is not
    /// this driver's business.
    pub fn disable(&self) {
    }
}

} // verus!
