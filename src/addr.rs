//! Virtual and physical addresses, as plain machine words.
use vstd::prelude::*;

verus! {

/// A virtual address.
#[derive(Clone, Copy, Debug, Default, PartialEq, Eq, Structural)]
pub struct VirtAddr(pub usize);

/// A physical address.
#[derive(Clone, Copy, Debug, Default, PartialEq, Eq, Structural)]
pub struct PhysAddr(pub usize);

impl VirtAddr {
    /// Makes an address from its numeric value.
    pub fn from_usize(addr: usize) -> (r: VirtAddr)
        ensures
            r.0 == addr,
    {
        VirtAddr(addr)
    }

    /// The numeric value of the address.
    pub fn as_usize(self) -> (r: usize)
        ensures
            r == self.0,
    {
        self.0
    }
}

impl PhysAddr {
    /// Makes an address from its numeric value.
    pub fn from_usize(addr: usize) -> (r: PhysAddr)
        ensures
            r.0 == addr,
    {
        PhysAddr(addr)
    }

    /// The numeric value of the address.
    pub fn as_usize(self) -> (r: usize)
        ensures
            r == self.0,
    {
        self.0
    }
}

} // verus!
