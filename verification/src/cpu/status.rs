//! The processor status register P.
use vstd::prelude::*;

verus! {

/// The eight flags of the status register, packed in one byte.
#[derive(Copy, Clone, Debug, PartialEq, Eq, Structural)]
pub struct Status {
    pub bits: u8,
}

impl Status {
    pub const NEGATIVE: u8 = 0x80;
    pub const OVERFLOW: u8 = 0x40;
    pub const PUSH_IRQ: u8 = 0x20;
    pub const BRK: u8 = 0x10;
    pub const DECIMAL: u8 = 0x08;
    pub const INT_DISABLE: u8 = 0x04;
    pub const ZERO: u8 = 0x02;
    pub const CARRY: u8 = 0x01;

    /// Whether every flag of `mask` is set.
    pub open spec fn has(self, mask: u8) -> bool {
        self.bits & mask == mask
    }

    /// The status with the flags of `mask` set when `value` holds and cleared otherwise.
    pub open spec fn with(self, mask: u8, value: bool) -> Status {
        Status { bits: if value { self.bits | mask } else { self.bits & !mask } }
    }

    /// No flag set.
    pub fn empty() -> (s: Status)
        ensures
            s.bits == 0,
    {
        Status { bits: 0 }
    }

    /// The status holding exactly the flags of `bits`. Every bit of the byte is a flag, so no
    /// byte is refused.
    pub fn from_bits(bits: u8) -> (s: Status)
        ensures
            s.bits == bits,
    {
        Status { bits }
    }

    pub fn bits(&self) -> (r: u8)
        ensures
            r == self.bits,
    {
        self.bits
    }

    pub fn to_u8(&self) -> (r: u8)
        ensures
            r == self.bits,
    {
        self.bits
    }

    /// Whether every flag of `mask` is set.
    pub fn contains(&self, mask: u8) -> (r: bool)
        ensures
            r == self.has(mask),
    {
        self.bits & mask == mask
    }

    /// Set the flags of `mask` when `value` holds, clear them otherwise.
    pub fn set(&mut self, mask: u8, value: bool)
        ensures
            *final(self) == old(self).with(mask, value),
    {
        if value {
            self.bits = self.bits | mask;
        } else {
            self.bits = self.bits & !mask;
        }
    }
}

impl Default for Status {
    /// The status after reset: the unused bit 5 and the interrupt disable flag.
    fn default() -> (s: Status)
        ensures
            s.bits == Status::PUSH_IRQ | Status::INT_DISABLE,
    {
        Status { bits: Status::PUSH_IRQ | Status::INT_DISABLE }
    }
}

} // verus!
