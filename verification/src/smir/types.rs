//! Basic SMIR types: guest addresses, virtual registers and their
//! allocators, identifiers.

use std::collections::HashMap;
use vstd::prelude::*;

verus! {

broadcast use vstd::std_specs::hash::group_hash_axioms;

/// A guest virtual address.
pub type GuestAddr = u64;

/// Guest architecture being lifted.
#[derive(Clone, Copy, Debug, PartialEq, Eq, Structural)]
pub enum SourceArch {
    X86_64,
    Aarch64,
    Riscv64,
    Hexagon,
}

/// Byte order of guest memory accesses.
#[derive(Clone, Copy, Debug, PartialEq, Eq, Structural)]
pub enum Endian {
    Little,
    Big,
}

impl SourceArch {
    /// The byte order the architecture runs in by default (all supported
    /// guests are little-endian).
    pub fn default_endian(&self) -> (r: Endian)
        ensures
            r == Endian::Little,
    {
        match self {
            SourceArch::X86_64 => Endian::Little,
            SourceArch::Aarch64 => Endian::Little,
            SourceArch::Riscv64 => Endian::Little,
            SourceArch::Hexagon => Endian::Little,
        }
    }
}

/// A virtual register.
#[derive(Clone, Copy, Debug, PartialEq, Eq, Hash, Structural)]
pub struct VReg(pub u32);

/// A basic-block identifier.
#[derive(Clone, Copy, Debug, PartialEq, Eq, Hash, Structural)]
pub struct BlockId(pub u32);

/// A function identifier.
#[derive(Clone, Copy, Debug, PartialEq, Eq, Hash, Structural)]
pub struct FunctionId(pub u32);

/// An operation identifier.
#[derive(Clone, Copy, Debug, PartialEq, Eq, Hash, Structural)]
pub struct OpId(pub u16);

/// An architectural register of the source machine, by number.
#[derive(Clone, Copy, Debug, PartialEq, Eq, Hash, Structural)]
pub struct ArchReg(pub u16);

/// Why a guest memory read failed.
#[derive(Clone, Copy, Debug, PartialEq, Eq, Structural)]
pub enum MemoryError {
    /// No memory is mapped at the address.
    Unmapped(GuestAddr),
}

/// Hands out fresh virtual registers and tracks which one currently holds
/// each architectural register.
pub struct VRegAllocator {
    next: u32,
    arch: HashMap<u16, VReg>,
}

impl VRegAllocator {
    /// Number of the next fresh register.
    pub closed spec fn next(&self) -> nat {
        self.next as nat
    }

    /// Current virtual register of each bound architectural register.
    pub closed spec fn bindings(&self) -> Map<u16, VReg> {
        self.arch@
    }

    /// Every bound register was handed out already.
    pub open spec fn wf(&self) -> bool {
        forall|r: u16| #[trigger] self.bindings().contains_key(r) ==> self.bindings()[r].0 < self.next()
    }

    pub fn new() -> (r: Self)
        ensures
            r.next() == 0,
            r.bindings() == Map::<u16, VReg>::empty(),
            r.wf(),
    {
        VRegAllocator { next: 0, arch: HashMap::new() }
    }

    /// A fresh virtual register.
    pub fn fresh(&mut self) -> (r: VReg)
        requires
            old(self).next() < u32::MAX,
        ensures
            r.0 == old(self).next(),
            final(self).next() == old(self).next() + 1,
            final(self).bindings() == old(self).bindings(),
            old(self).wf() ==> final(self).wf(),
    {
        let v = VReg(self.next);
        self.next = self.next + 1;
        v
    }

    /// Bind a fresh virtual register to `reg` (a new definition of it).
    pub fn define_arch(&mut self, reg: ArchReg) -> (r: VReg)
        requires
            old(self).next() < u32::MAX,
        ensures
            r.0 == old(self).next(),
            final(self).next() == old(self).next() + 1,
            final(self).bindings() == old(self).bindings().insert(reg.0, r),
            old(self).wf() ==> final(self).wf(),
    {
        let v = self.fresh();
        self.arch.insert(reg.0, v);
        v
    }

    /// The virtual register holding `reg`, binding a fresh one on first use.
    pub fn get_arch(&mut self, reg: ArchReg) -> (r: VReg)
        requires
            old(self).next() < u32::MAX,
        ensures
            old(self).bindings().contains_key(reg.0) ==> r == old(self).bindings()[reg.0] && *final(self) == *old(self),
            !old(self).bindings().contains_key(reg.0) ==> r.0 == old(self).next() && final(self).next() == old(self).next() + 1 && final(self).bindings() == old(self).bindings().insert(reg.0, r),
            final(self).bindings().contains_key(reg.0) && final(self).bindings()[reg.0] == r,
            old(self).wf() ==> final(self).wf(),
    {
        match self.arch.get(&reg.0) {
            Some(v) => *v,
            None => self.define_arch(reg),
        }
    }
}

/// Hands out fresh block identifiers.
pub struct BlockIdAllocator {
    next: u32,
}

impl BlockIdAllocator {
    /// Number of the next fresh block.
    pub closed spec fn next(&self) -> nat {
        self.next as nat
    }

    pub fn new() -> (r: Self)
        ensures
            r.next() == 0,
    {
        BlockIdAllocator { next: 0 }
    }

    /// A fresh block identifier.
    pub fn fresh(&mut self) -> (r: BlockId)
        requires
            old(self).next() < u32::MAX,
        ensures
            r.0 == old(self).next(),
            final(self).next() == old(self).next() + 1,
    {
        let b = BlockId(self.next);
        self.next = self.next + 1;
        b
    }
}

} // verus!
