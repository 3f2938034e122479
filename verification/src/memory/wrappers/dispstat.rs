use vstd::prelude::*;

verus! {

/// The display status register.
pub struct Dispstat(pub u16);

impl Dispstat {
    /// The V-count setting, the bits from 7 up.
    pub fn vcount_setting(&self) -> (r: u16)
        ensures
            r == self.0 >> 7u16,
    {
        self.0 >> 7u16
    }
}

} // verus!
