//! Byte memories: the console's RAM and the cartridge's ROM and RAM.
#![allow(non_upper_case_globals)]
use vstd::prelude::*;

verus! {

/// A block of bytes, writable unless `READ_ONLY`.
pub struct Memory<const READ_ONLY: bool> {
    pub data: Vec<u8>,
}

impl<const READ_ONLY: bool> Memory<READ_ONLY> {
    pub fn with_size(size: usize) -> (r: Self)
        ensures
            r.data@ == Seq::new(size as nat, |i: int| 0u8),
    {
        Memory { data: zeroed(size) }
    }

    pub fn with_data(data: &[u8]) -> (r: Self)
        ensures
            r.data@ == data@,
    {
        let v = prefix(data, data.len());
        assert(data@.subrange(0, data@.len() as int) =~= data@);
        Memory { data: v }
    }

    /// `size` bytes taken from the start of `data`.
    pub fn with_data_and_size(data: &[u8], size: usize) -> (r: Self)
        requires
            data@.len() >= size,
        ensures
            r.data@ == data@.subrange(0, size as int),
    {
        Memory { data: prefix(data, size) }
    }

    pub fn len(&self) -> (r: usize)
        ensures
            r == self.data@.len(),
    {
        self.data.len()
    }

    pub fn read(&self, addr: usize) -> (r: u8)
        requires
            addr < self.data@.len(),
        ensures
            r == self.data@[addr as int],
    {
        self.data[addr]
    }
}

impl Memory<false> {
    pub fn write(&mut self, addr: usize, val: u8)
        requires
            addr < old(self).data@.len(),
        ensures
            final(self).data@ == old(self).data@.update(addr as int, val),
    {
        self.data.set(addr, val);
    }
}

/// `n` zero bytes.
pub fn zeroed(n: usize) -> (r: Vec<u8>)
    ensures
        r@ == Seq::new(n as nat, |i: int| 0u8),
{
    let mut v: Vec<u8> = Vec::new();
    let mut i: usize = 0;
    while i < n
        invariant
            i <= n,
            v@ == Seq::new(i as nat, |j: int| 0u8),
        decreases n - i,
    {
        v.push(0);
        i = i + 1;
    }
    v
}

/// The first `n` bytes of `data`.
pub fn prefix(data: &[u8], n: usize) -> (r: Vec<u8>)
    requires
        n <= data@.len(),
    ensures
        r@ == data@.subrange(0, n as int),
{
    let mut v: Vec<u8> = Vec::new();
    let mut i: usize = 0;
    while i < n
        invariant
            i <= n,
            n <= data@.len(),
            v@ == data@.subrange(0, i as int),
        decreases n - i,
    {
        v.push(data[i]);
        i = i + 1;
    }
    v
}

/// Random-access memory of at most 64 KiB.
#[derive(Clone)]
pub struct RAM {
    pub data: Vec<u8>,
}

/// Read-only memory of at most 64 KiB.
#[derive(Clone)]
pub struct ROM {
    pub data: Vec<u8>,
}

impl ROM {
    pub open spec fn wf(self) -> bool {
        self.data@.len() <= 0xFFFF
    }

    pub fn with_size(size: u16) -> (r: ROM)
        ensures
            r.data@ == Seq::new(size as nat, |i: int| 0u8),
    {
        ROM { data: zeroed(size as usize) }
    }

    pub fn with_data(data: &[u8]) -> (r: ROM)
        ensures
            r.data@ == data@,
    {
        let v = prefix(data, data.len());
        assert(data@.subrange(0, data@.len() as int) =~= data@);
        ROM { data: v }
    }

    /// The first `size` bytes of `data`.
    pub fn with_data_and_size(data: &[u8], size: u16) -> (r: ROM)
        requires
            data@.len() >= size,
        ensures
            r.data@ == data@.subrange(0, size as int),
    {
        ROM { data: prefix(data, size as usize) }
    }

    pub fn read(&self, addr: u16) -> (r: u8)
        requires
            addr < self.data@.len(),
        ensures
            r == self.data@[addr as int],
    {
        self.data[addr as usize]
    }

    pub fn len(&self) -> (r: u16)
        requires
            self.wf(),
        ensures
            r == self.data@.len(),
    {
        self.data.len() as u16
    }

    /// Replace the byte at `addr`, for boards that map writable memory where the image sits.
    pub fn patch(&mut self, addr: usize, val: u8)
        requires
            addr < old(self).data@.len(),
        ensures
            final(self).data@ == old(self).data@.update(addr as int, val),
    {
        self.data.set(addr, val);
    }
}

impl RAM {
    pub open spec fn wf(self) -> bool {
        self.data@.len() <= 0xFFFF
    }

    pub fn with_size(size: u16) -> (r: RAM)
        ensures
            r.data@ == Seq::new(size as nat, |i: int| 0u8),
    {
        RAM { data: zeroed(size as usize) }
    }

    pub fn with_data(data: &[u8]) -> (r: RAM)
        ensures
            r.data@ == data@,
    {
        let v = prefix(data, data.len());
        assert(data@.subrange(0, data@.len() as int) =~= data@);
        RAM { data: v }
    }

    /// `data` followed by zeros up to `size` bytes.
    pub fn with_data_and_size(data: &[u8], size: u16) -> (r: RAM)
        requires
            data@.len() <= size,
        ensures
            r.data@ == data@ + Seq::new((size - data@.len()) as nat, |i: int| 0u8),
    {
        let mut ram = RAM::with_data(data);
        let fill = size as usize - data.len();
        let mut i: usize = 0;
        while i < fill
            invariant
                i <= fill,
                fill == size - data@.len(),
                ram.data@ == data@ + Seq::new(i as nat, |j: int| 0u8),
            decreases fill - i,
        {
            ram.data.push(0);
            proof {
                assert(data@ + Seq::new((i + 1) as nat, |j: int| 0u8) =~= (data@ + Seq::new(
                    i as nat,
                    |j: int| 0u8,
                )).push(0));
            }
            i = i + 1;
        }
        ram
    }

    pub fn read(&self, addr: u16) -> (r: u8)
        requires
            addr < self.data@.len(),
        ensures
            r == self.data@[addr as int],
    {
        self.data[addr as usize]
    }

    pub fn write(&mut self, addr: u16, val: u8)
        requires
            addr < old(self).data@.len(),
        ensures
            final(self).data@ == old(self).data@.update(addr as int, val),
    {
        self.data.set(addr as usize, val);
    }

    pub fn len(&self) -> (r: u16)
        requires
            self.wf(),
        ensures
            r == self.data@.len(),
    {
        self.data.len() as u16
    }
}

/// What a write is for: after `write(addr, val)` turns `before` into `after`, reading `addr`
/// gives `val` back, every other address reads as before, and the size is unchanged.
pub proof fn lemma_ram_read_after_write(before: RAM, after: RAM, addr: u16, other: u16, val: u8)
    requires
        addr < before.data@.len(),
        other < before.data@.len(),
        other != addr,
        after.data@ == before.data@.update(addr as int, val),
    ensures
        after.data@[addr as int] == val,
        after.data@[other as int] == before.data@[other as int],
        after.data@.len() == before.data@.len(),
{
}

} // verus!
