//! The boot-time mapping bootstrapper.
//!
//! Before the boot page table maps a device window, the hypervisor must have
//! granted it. The order is fixed: discover the guard granule, authorize the
//! windows one after the other, and only then lay out the block mappings.

use vstd::prelude::*;
use crate::psci::GuardError;
use crate::psci::GuardGranule;
use crate::psci::authorize;
use crate::psci::discovery;
use crate::psci::do_xmap_granules;
use crate::psci::kvm_guard_granule_init;

verus! {

/// Size of the blocks that the boot page table maps.
pub const BOOT_BLOCK_SIZE: usize = 0x4000_0000;

/// A window of device memory: a physical address and a size in bytes.
#[derive(Clone, Copy, Debug, PartialEq, Eq, Structural)]
pub struct MmioWindow {
    pub phys_addr: usize,
    pub size: usize,
}

/// What a block of the boot page table is mapped as.
#[derive(Clone, Copy, Debug, PartialEq, Eq, Structural)]
pub enum MemoryKind {
    /// Device memory, readable and writable.
    Device,
    /// Normal memory, readable, writable and executable.
    Normal,
}

/// One block entry of the second level of the boot page table.
#[derive(Clone, Copy, Debug, PartialEq, Eq, Structural)]
pub struct BlockMapping {
    /// Index of the entry in the table.
    pub index: usize,
    /// Physical address that the block starts at.
    pub paddr: usize,
    /// What the block is mapped as.
    pub kind: MemoryKind,
}

/// The device windows that boot authorizes, in order: the interrupt
/// controller, the PCI configuration space, the PCI memory.
pub open spec fn boot_windows() -> Seq<MmioWindow> {
    seq![
        MmioWindow { phys_addr: 0x3ffb_0000, size: 0x20_0000 },
        MmioWindow { phys_addr: 0x7200_0000, size: 0x100_0000 },
        MmioWindow { phys_addr: 0x7000_0000, size: 0x200_0000 },
    ]
}

/// The blocks of the boot page table: the first two gigabytes as device
/// memory, the next two as normal memory.
pub open spec fn boot_blocks() -> Seq<BlockMapping> {
    seq![
        BlockMapping { index: 0, paddr: 0, kind: MemoryKind::Device },
        BlockMapping { index: 1, paddr: 0x4000_0000, kind: MemoryKind::Device },
        BlockMapping { index: 2, paddr: 0x8000_0000, kind: MemoryKind::Normal },
        BlockMapping { index: 3, paddr: 0xC000_0000, kind: MemoryKind::Normal },
    ]
}

/// The device windows that boot authorizes, in order.
pub fn boot_mmio_windows() -> (windows: Vec<MmioWindow>)
    ensures
        windows@ == boot_windows(),
{
    let mut windows: Vec<MmioWindow> = Vec::new();
    windows.push(MmioWindow { phys_addr: 0x3ffb_0000, size: 0x20_0000 });
    windows.push(MmioWindow { phys_addr: 0x7200_0000, size: 0x100_0000 });
    windows.push(MmioWindow { phys_addr: 0x7000_0000, size: 0x200_0000 });
    windows
}

/// What the console shows before each boot window is authorized.
pub open spec fn boot_window_notes() -> Seq<&'static str> {
    seq!["[boot] kvm xmap gicv3 mem\r\n", "[boot] kvm xmap pci cam\r\n", "[boot] kvm xmap pci mem\r\n"]
}

/// What the console shows before the boot window `index` is authorized.
pub fn boot_window_note(index: usize) -> (note: &'static str)
    requires
        index < boot_windows().len(),
    ensures
        note == boot_window_notes()[index as int],
{
    if index == 0 {
        "[boot] kvm xmap gicv3 mem\r\n"
    } else if index == 1 {
        "[boot] kvm xmap pci cam\r\n"
    } else {
        "[boot] kvm xmap pci mem\r\n"
    }
}

/// The blocks of the boot page table, by index.
pub fn boot_block_mappings() -> (blocks: Vec<BlockMapping>)
    ensures
        blocks@ == boot_blocks(),
{
    let mut blocks: Vec<BlockMapping> = Vec::new();
    // 0x0000_0000..0x4000_0000, 1G block, device memory
    blocks.push(BlockMapping { index: 0, paddr: 0, kind: MemoryKind::Device });
    // 0x4000_0000..0x8000_0000, 1G block, device memory
    blocks.push(BlockMapping { index: 1, paddr: 0x4000_0000, kind: MemoryKind::Device });
    // 0x8000_0000..0xC000_0000, 1G block, normal memory
    blocks.push(BlockMapping { index: 2, paddr: 0x8000_0000, kind: MemoryKind::Normal });
    // 0xC000_0000..0x1_0000_0000, 1G block, normal memory
    blocks.push(BlockMapping { index: 3, paddr: 0xC000_0000, kind: MemoryKind::Normal });
    blocks
}

/// Every byte of every boot window lies in a block that is mapped as device
/// memory, and every block starts at its index times the block size.
pub proof fn lemma_windows_in_device_blocks(w: int, addr: int)
    requires
        0 <= w < boot_windows().len(),
        boot_windows()[w].phys_addr <= addr < boot_windows()[w].phys_addr + boot_windows()[w].size,
    ensures
        0 <= addr / (BOOT_BLOCK_SIZE as int) < boot_blocks().len(),
        boot_blocks()[addr / (BOOT_BLOCK_SIZE as int)].kind == MemoryKind::Device,
        forall|b: int|
            0 <= b < boot_blocks().len() ==> (#[trigger] boot_blocks()[b]).index == b && boot_blocks()[b].paddr
                == b * BOOT_BLOCK_SIZE,
{
}

/// What authorizing the windows `windows[from..]` in order gives, each run
/// taking its answers where the one before stopped: the first error, or the
/// index of the first answer that no run consumed.
pub open spec fn authorize_all(
    granule: usize,
    windows: Seq<MmioWindow>,
    from: int,
    responses: Seq<(usize, usize)>,
    start: int,
) -> Result<int, GuardError>
    decreases windows.len() - from,
{
    if from < 0 || from >= windows.len() {
        Ok(start)
    } else {
        match authorize(granule, windows[from].phys_addr, windows[from].size, responses, start) {
            Err(e) => Err(e),
            Ok(o) => authorize_all(granule, windows, from + 1, responses, o.next as int),
        }
    }
}

/// Authorizes the windows in order, taking the answers to the hypercalls
/// from `responses`. Stops at the first window that fails.
pub fn authorize_windows(registry: &GuardGranule, windows: &Vec<MmioWindow>, responses: &Vec<(usize, usize)>) -> (out:
    Result<usize, GuardError>)
    requires
        registry@ is Some,
        forall|i: int| 0 <= i < windows.len() ==> windows[i].phys_addr + windows[i].size <= usize::MAX,
    ensures
        match authorize_all(registry@.unwrap(), windows@, 0, responses@, 0) {
            Err(e) => out == Err::<usize, GuardError>(e),
            Ok(next) => out == Ok::<usize, GuardError>(next as usize) && next <= responses.len(),
        },
{
    let mut next: usize = 0;
    let mut w: usize = 0;
    while w < windows.len()
        invariant
            registry@ is Some,
            forall|i: int| 0 <= i < windows.len() ==> windows[i].phys_addr + windows[i].size <= usize::MAX,
            w <= windows.len(),
            next <= responses.len(),
            authorize_all(registry@.unwrap(), windows@, 0, responses@, 0) == authorize_all(
                registry@.unwrap(),
                windows@,
                w as int,
                responses@,
                next as int,
            ),
        decreases windows.len() - w,
    {
        let window = windows[w];
        match do_xmap_granules(registry, window.phys_addr, window.size, responses, next) {
            Err(e) => {
                return Err(e);
            },
            Ok(o) => {
                next = o.next;
            },
        }
        w = w + 1;
    }
    Ok(next)
}

/// What the bootstrapper gives: the block mappings if discovery succeeded and
/// every boot window was authorized in full, and else the first error.
pub open spec fn boot_plan(
    cached: Option<usize>,
    granule_size: usize,
    has_range: usize,
    responses: Seq<(usize, usize)>,
) -> Result<Seq<BlockMapping>, GuardError> {
    match discovery(cached, granule_size, has_range).1 {
        Err(e) => Err(e),
        Ok(granule) => match authorize_all(granule, boot_windows(), 0, responses, 0) {
            Err(e) => Err(e),
            Ok(_) => Ok(boot_blocks()),
        },
    }
}

/// Prepares the boot page table: takes the answer `(granule_size, has_range)`
/// to the guard-info hypercall, authorizes the boot windows with the answers
/// in `responses`, and only then hands out the block mappings.
pub fn init_boot_page_table(
    registry: &mut GuardGranule,
    granule_size: usize,
    has_range: usize,
    responses: &Vec<(usize, usize)>,
) -> (out: Result<Vec<BlockMapping>, GuardError>)
    ensures
        final(registry)@ == discovery(old(registry)@, granule_size, has_range).0,
        match boot_plan(old(registry)@, granule_size, has_range, responses@) {
            Err(e) => out == Err::<Vec<BlockMapping>, GuardError>(e),
            Ok(blocks) => out is Ok && out.unwrap()@ == blocks,
        },
{
    match kvm_guard_granule_init(registry, granule_size, has_range) {
        Err(e) => {
            return Err(e);
        },
        Ok(_) => {},
    }
    let windows = boot_mmio_windows();
    match authorize_windows(registry, &windows, responses) {
        Err(e) => {
            return Err(e);
        },
        Ok(_) => {},
    }
    Ok(boot_block_mappings())
}

} // verus!
