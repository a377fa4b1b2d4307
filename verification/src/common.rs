//! What the first CPU core is built on: a byte bus addressed by `usize`, and the traits of
//! clocked and saveable components.
use vstd::prelude::*;

verus! {

/// The communication on the bus. An object is passed an instance of this type when clocked.
pub trait Bus: Sized {
    /// A read of `addr` from this bus gives `r` and leaves the bus as `next`.
    spec fn reads(&self, addr: usize, r: u8, next: Self) -> bool;

    /// A write of `val` to `addr` leaves this bus as `next`.
    spec fn writes(&self, addr: usize, val: u8, next: Self) -> bool;

    fn read(&mut self, addr: usize) -> (r: u8)
        ensures
            old(self).reads(addr, r, *final(self)),
    ;

    fn write(&mut self, addr: usize, val: u8)
        ensures
            old(self).writes(addr, val, *final(self)),
    ;

    /// Read `n` consecutive bytes from `addr`.
    fn read_n(&mut self, addr: usize, n: usize) -> (r: Vec<u8>)
        requires
            addr + n <= usize::MAX,
        ensures
            r@.len() == n,
    {
        let mut v: Vec<u8> = Vec::new();
        let mut idx: usize = 0;
        while idx < n
            invariant
                idx <= n,
                addr + n <= usize::MAX,
                v@.len() == idx,
            decreases n - idx,
        {
            let b = self.read(addr + idx);
            v.push(b);
            idx = idx + 1;
        }
        v
    }

    /// Read the little-endian word at `addr` and `addr + 1`.
    fn read16(&mut self, addr: usize) -> (r: u16)
        requires
            addr < usize::MAX,
        ensures
            exists|mid: Self, lo: u8, hi: u8|
                #![trigger old(self).reads(addr, lo, mid), mid.reads((addr + 1) as usize, hi, *final(self))]
                old(self).reads(addr, lo, mid) && mid.reads((addr + 1) as usize, hi, *final(self))
                    && r == ((lo as u16) | ((hi as u16) << 8u16)),
    {
        let lo = self.read(addr);
        let ghost mid = *self;
        let hi = self.read(addr + 1);
        assert(mid.reads((addr + 1) as usize, hi, *self));
        (lo as u16) | ((hi as u16) << 8u16)
    }
}

/// A little-endian word read of `addr` from `b` gives `r` and leaves the bus as `next`: the
/// low byte from `addr`, the high byte from `addr + 1`.
pub open spec fn reads_word_at<T: Bus>(b: T, addr: usize, r: u16, next: T) -> bool {
    exists|mid: T, lo: u8, hi: u8|
        #![trigger b.reads(addr, lo, mid), mid.reads((addr + 1) as usize, hi, next)]
        b.reads(addr, lo, mid) && mid.reads((addr + 1) as usize, hi, next) && r == ((lo as u16) | ((
            hi as u16) << 8u16))
}

/// A component that runs one clock cycle at a time against a bus.
pub trait Clocked<BusType: Bus> {
    fn clock(&mut self, bus: &mut BusType);
}

/// Save and restore: an object that can be saved has its internal state saved, which can then
/// be restored at a later time. The medium can be anything; both report success.
pub trait Snapshot {
    type Medium;

    fn save(&self, medium: Self::Medium) -> bool;

    fn restore(&mut self, medium: Self::Medium) -> bool;
}

pub const NTSC_CLOCK: u32 = 1_789_773;
pub const PAL_CLOCK: u32 = 1_662_607;
pub const RESET_VECTOR_START: u16 = 0xFFFC;

} // verus!
