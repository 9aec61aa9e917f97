//! The guest address space that the translator works in.

use vstd::prelude::*;

verus! {

/// A span of guest memory.
#[derive(Clone, Copy, PartialEq, Eq, Debug, Structural)]
pub struct Region {
    pub base: u64,
    pub len: usize,
}

/// The regions that a guest owns and the size of the cache that its translated
/// code goes to.
#[derive(Debug)]
pub struct AddressSpace {
    pub code_cache_size: usize,
    pub regions: Vec<Region>,
}

impl AddressSpace {
    /// An address space with no regions.
    pub fn new(code_cache_size: usize) -> (addr: AddressSpace)
        ensures
            addr.code_cache_size == code_cache_size,
            addr.regions@ == Seq::<Region>::empty(),
    {
        AddressSpace { code_cache_size, regions: Vec::new() }
    }

    /// Add the region of `len` bytes at `base`.
    pub fn add_region(&mut self, base: u64, len: usize)
        ensures
            final(self).regions@ == old(self).regions@.push(Region { base, len }),
            final(self).code_cache_size == old(self).code_cache_size,
    {
        self.regions.push(Region { base, len });
    }
}

} // verus!
