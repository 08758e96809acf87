//! Emulation of the PCI Express capability of a virtual PCIe root port and
//! of the register routing of the PCI bridge that hosts it.
//!
//! - `cap`: the capability structure, how it is built and laid out in bytes.
//! - `root_port`: the slot registers of a root port and hot-plug events.
//! - `bridge`: the bridge's bus address, MSI-X capability register and BAR routing.
//! - `laws`: properties that hold across these operations.
pub mod bridge;
pub mod cap;
pub mod laws;
pub mod root_port;
