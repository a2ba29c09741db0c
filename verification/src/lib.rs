//! Platform support for an AArch64 guest kernel running under a
//! memory-protecting hypervisor.
//!
//! The crate holds the decisions of the platform layer, stated and proved
//! over plain values:
//!
//! - `psci`: the client of the hypervisor's MMIO guard, which asks for access
//!   to device memory granule by granule;
//! - `boot`: the order in which boot authorizes the device windows before
//!   the boot page table maps them;
//! - `gicv3`: the interrupt controller driver, with the bring-up of each core
//!   and the commands for the controller;
//! - `dispatch`: the table of interrupt handlers;
//! - `serial`: the text of the early diagnostic console;
//! - `mem` and `fdt`: reserved memory and address translation.
//!
//! Nothing here touches hardware. Hypercalls, register accesses and the
//! serial port belong to the caller: the crate says which call or command is
//! due and takes the answer as an argument.

pub mod boot;
pub mod dispatch;
pub mod fdt;
pub mod gicv3;
pub mod mem;
pub mod psci;
pub mod serial;
