//! A standard controller: an 8-bit shift register with a strobe latch.
use vstd::prelude::*;

verus! {

/// The bit that a read returns when the register stands at `index`:
/// the buttons in order A, B, Select, Start, Up, Down, Left, Right, then ones.
pub open spec fn shifted_bit(value: u8, index: u8) -> u8 {
    if index < 8 {
        (value >> index) & 1
    } else {
        1
    }
}

/// Button state of one controller port.
pub struct Controller {
    /// Pressed buttons, one bit each (A is bit 0, Right is bit 7).
    pub value: u8,
    /// The next bit that a read shifts out; 8 once all have been read.
    pub index: u8,
    /// While set, every read returns the A button.
    pub strobe: bool,
}

impl Controller {
    /// A controller with no button pressed and the strobe low.
    pub fn new() -> (r: Controller)
        ensures
            r.value == 0,
            r.index == 0,
            !r.strobe,
    {
        Controller { value: 0, index: 0, strobe: false }
    }

    /// The index stays within the eight buttons and the trailing state.
    pub open spec fn wf(&self) -> bool {
        self.index <= 8
    }

    /// Sets the strobe line; a high strobe rewinds the shift register.
    pub fn write_strobe(&mut self, val: bool)
        ensures
            final(self).strobe == val,
            final(self).value == old(self).value,
            final(self).index == (if val { 0 } else { old(self).index }),
    {
        self.strobe = val;
        if self.strobe {
            self.index = 0;
        }
    }

    /// Shifts one bit out of the register.
    pub fn read_value(&mut self) -> (r: u8)
        requires
            old(self).wf(),
        ensures
            r == shifted_bit(old(self).value, old(self).index),
            final(self).wf(),
            final(self).value == old(self).value,
            final(self).strobe == old(self).strobe,
            final(self).index == (if old(self).strobe {
                0
            } else if old(self).index < 8 {
                (old(self).index + 1) as u8
            } else {
                8u8
            }),
    {
        let ret: u8 = if self.index < 8 {
            (self.value >> self.index) & 1
        } else {
            1
        };
        if self.index < 8 {
            self.index = self.index + 1;
        }
        if self.strobe {
            self.index = 0;
        }
        ret
    }

    /// Marks the button at bit `index` as pressed.
    pub fn press_button(&mut self, index: u8)
        requires
            index < 8,
        ensures
            final(self).value == old(self).value | (1u8 << index),
            final(self).index == old(self).index,
            final(self).strobe == old(self).strobe,
    {
        self.value = self.value | (1u8 << index);
    }

    /// Marks the button at bit `index` as released.
    pub fn release_button(&mut self, index: u8)
        requires
            index < 8,
        ensures
            final(self).value == old(self).value & !(1u8 << index),
            final(self).index == old(self).index,
            final(self).strobe == old(self).strobe,
    {
        self.value = self.value & !(1u8 << index);
    }
}

} // verus!
