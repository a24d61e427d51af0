//! Kernel core of a small operating system: the decisions that drive PCI
//! discovery, interrupt wiring, the interrupt-to-main-loop message queue and a
//! USB xHCI host controller that reads a mouse, kept free of hardware access
//! so that every one of them carries a proved contract.
//!
//! Nothing here touches a port, a register or a processor instruction. Each
//! operation that needs the hardware is split: this crate computes addresses,
//! decodes what was read and decides what to write; the boot code around it
//! performs the accesses.

pub mod error;
pub mod interrupt;
pub mod kernel;
pub mod memory_map;
pub mod mouse;
pub mod pci;
pub mod queue;
pub mod usb;
pub mod xhci;
