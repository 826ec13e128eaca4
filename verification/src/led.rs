use vstd::prelude::*;

verus! {

/// Logical model of the single digital output. `active` is the level the
/// driver was last told to drive, as a logical on/off. The embedding
/// program owns the physical pin handle and mirrors every state change of
/// this model onto the pin inside the same critical section (the pin is
/// wired active-low: on means level low), so the model and the hardware
/// never disagree.
pub struct Led {
    pub active: bool,
}

impl Led {
    /// Opens the driver with the output in the deactivated, safe state, so
    /// there is no window at startup where the output is energized.
    pub fn load() -> (l: Led)
        ensures
            !l.active,
    {
        Led { active: false }
    }

    /// Energizes the output: exactly one state change, no other bookkeeping.
    pub fn on(&mut self)
        ensures
            final(self).active,
    {
        self.active = true;
    }

    /// De-energizes the output.
    pub fn off(&mut self)
        ensures
            !final(self).active,
    {
        self.active = false;
    }
}

} // verus!
