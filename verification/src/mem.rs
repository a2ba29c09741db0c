//! Physical memory that the platform reserves, and the linear mapping
//! between physical and virtual addresses.

use vstd::prelude::*;

verus! {

/// Size of the memory reserved for the flattened device tree.
pub const FDT_MEM_SIZE: usize = 0x20_0000;

/// What early initialization learnt of the reserved memory.
#[derive(Clone, Copy, Debug, PartialEq, Eq, Structural)]
pub struct ReservedMemory {
    /// Physical address of the flattened device tree.
    pub fdt_base: usize,
    /// Physical address of the DICE region, 0 if there is none.
    pub dice_base: usize,
    /// Size of the DICE region, 0 if there is none.
    pub dice_size: usize,
}

/// Records the address of the device tree and the first of the DICE node's
/// regions, each given as address and size.
pub fn init_early(fdt_paddr: usize, dice_regions: &Vec<(usize, usize)>) -> (reserved: ReservedMemory)
    ensures
        reserved == if dice_regions.len() > 0 {
            (ReservedMemory { fdt_base: fdt_paddr, dice_base: dice_regions[0].0, dice_size: dice_regions[0].1 })
        } else {
            (ReservedMemory { fdt_base: fdt_paddr, dice_base: 0, dice_size: 0 })
        },
{
    if dice_regions.len() > 0 {
        let first: (usize, usize) = dice_regions[0];
        ReservedMemory { fdt_base: fdt_paddr, dice_base: first.0, dice_size: first.1 }
    } else {
        ReservedMemory { fdt_base: fdt_paddr, dice_base: 0, dice_size: 0 }
    }
}

/// The reserved physical memory ranges: the device tree, then the DICE
/// region.
pub fn reserved_phys_ram_ranges(reserved: &ReservedMemory) -> (ranges: [(usize, usize); 2])
    ensures
        ranges[0] == (reserved.fdt_base, FDT_MEM_SIZE),
        ranges[1] == (reserved.dice_base, reserved.dice_size),
{
    [(reserved.fdt_base, FDT_MEM_SIZE), (reserved.dice_base, reserved.dice_size)]
}

/// Translates a physical address to a virtual address.
pub fn phys_to_virt(paddr: usize, phys_virt_offset: usize) -> (vaddr: usize)
    requires
        paddr + phys_virt_offset <= usize::MAX,
    ensures
        vaddr == paddr + phys_virt_offset,
{
    paddr + phys_virt_offset
}

/// Translates a virtual address to a physical address.
pub fn virt_to_phys(vaddr: usize, phys_virt_offset: usize) -> (paddr: usize)
    requires
        vaddr >= phys_virt_offset,
    ensures
        paddr == vaddr - phys_virt_offset,
{
    vaddr - phys_virt_offset
}

} // verus!
