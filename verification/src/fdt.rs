//! What the platform takes from the flattened device tree.

use vstd::prelude::*;
use crate::mem::phys_to_virt;

verus! {

/// The first region of the DICE node, as its virtual address and its size,
/// if the node has a region.
pub fn dice_reg(dice_regions: &Vec<(usize, usize)>, phys_virt_offset: usize) -> (region: Option<(usize, usize)>)
    requires
        dice_regions.len() > 0 ==> dice_regions[0].0 + phys_virt_offset <= usize::MAX,
    ensures
        region == if dice_regions.len() > 0 {
            Some(((dice_regions[0].0 + phys_virt_offset) as usize, dice_regions[0].1))
        } else {
            None
        },
{
    if dice_regions.len() > 0 {
        let first: (usize, usize) = dice_regions[0];
        let va: usize = phys_to_virt(first.0, phys_virt_offset);
        return Some((va, first.1));
    }
    None
}

} // verus!
