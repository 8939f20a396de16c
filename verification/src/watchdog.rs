//! The watchdog: hardware that resets the chip unless the program checks in.
//! Its control register only accepts a write in the short window after the
//! two-value unlock sequence, which the model tracks as an explicit stage.

use vstd::prelude::*;
use crate::bits::{with_bit16, set_bit16};

verus! {

/// First value of the unlock sequence.
pub const UNLOCK_FIRST: u16 = 0xC520;

/// Second value of the unlock sequence.
pub const UNLOCK_SECOND: u16 = 0xD928;

/// The watchdog's register block: the high control register, and how far
/// through the unlock sequence the last writes got.
pub struct Watchdog {
    pub stctrlh: u16,
    pub unlock_stage: u8,
}

impl Watchdog {
    /// The unlock sequence is complete and the control register accepts a
    /// write.
    pub open spec fn unlocked(self) -> bool {
        self.unlock_stage == 2
    }

    /// The block as it comes out of reset: watchdog enabled (bit 0 of the
    /// control register set), no unlock in progress.
    pub fn new() -> (r: Watchdog)
        ensures
            r == (Watchdog { stctrlh: 0x01D3, unlock_stage: 0 }),
    {
        Watchdog { stctrlh: 0x01D3, unlock_stage: 0 }
    }

    /// Write one value of the unlock sequence: the first value starts the
    /// sequence over, the second completes it only right after the first,
    /// and anything else locks the block again.
    pub fn write_unlock(&mut self, v: u16)
        ensures
            final(self).stctrlh == old(self).stctrlh,
            final(self).unlock_stage == (if old(self).unlock_stage == 1 && v == UNLOCK_SECOND {
                2u8
            } else if v == UNLOCK_FIRST {
                1u8
            } else {
                0u8
            }),
    {
        if self.unlock_stage == 1 && v == UNLOCK_SECOND {
            self.unlock_stage = 2;
        } else if v == UNLOCK_FIRST {
            self.unlock_stage = 1;
        } else {
            self.unlock_stage = 0;
        }
    }

    /// Write the high control register; the hardware accepts it only while
    /// the block is unlocked.
    pub fn write_stctrlh(&mut self, v: u16)
        requires
            old(self).unlocked(),
        ensures
            *final(self) == (Watchdog { stctrlh: v, ..*old(self) }),
    {
        self.stctrlh = v;
    }

    /// Disable the watchdog: run the unlock sequence, then clear the enable
    /// bit, leaving every other control bit as it was.
    pub fn disable(&mut self)
        ensures
            final(self).stctrlh == with_bit16(old(self).stctrlh, 0, false),
            final(self).unlocked(),
    {
        self.write_unlock(UNLOCK_FIRST);
        self.write_unlock(UNLOCK_SECOND);
        let v = set_bit16(self.stctrlh, 0, false);
        self.write_stctrlh(v);
    }
}

} // verus!
