//! The decisions of the PCI bridge that hosts a PCIe port: its bus address,
//! which configuration register belongs to its MSI-X capability, and which
//! part of its BAR an access lands in.
use vstd::prelude::*;
use crate::root_port::PciAddress;

verus! {

/// Offset of the MSI-X table within the bridge's BAR.
pub const BR_MSIX_TABLE_OFFSET: u64 = 0x0;
/// Offset of the MSI-X pending bit array within the bridge's BAR.
pub const BR_MSIX_PBA_OFFSET: u64 = 0x100;
/// Size of the bridge's BAR.
pub const PCI_BRIDGE_BAR_SIZE: u64 = 0x1000;

/// Why a bridge operation failed.
#[derive(Clone, Copy, Debug, PartialEq, Eq, Structural)]
pub enum PciDeviceError {
    /// No bus address could be allocated for the bridge.
    PciAllocationFailed,
}

/// Where an access to the bridge's BAR lands.
#[derive(Clone, Copy, Debug, PartialEq, Eq, Structural)]
pub enum BarRegion {
    /// The MSI-X table, at the given offset within it.
    MsixTable(u64),
    /// The MSI-X pending bit array, at the given offset within it.
    PendingBitArray(u64),
    /// Neither: the access is ignored.
    Unmapped,
}

/// Who answers a guest read of a configuration register of the bridge.
#[derive(Clone, Copy, Debug, PartialEq, Eq, Structural)]
pub enum ConfigReadSource {
    /// The MSI-X state alone, from the register's value in configuration space.
    MsixCapability,
    /// The device behind the bridge, which may overlay the register's value in
    /// configuration space.
    Device,
}

/// Who takes a guest write to a configuration register of the bridge, in the
/// order in which they take it: the MSI-X state, then the device behind the
/// bridge, then the configuration space.
#[derive(Clone, Copy, Debug, PartialEq, Eq, Structural)]
pub struct ConfigWriteTargets {
    pub msix: bool,
    pub device: bool,
    pub config: bool,
}

/// The region that an access at `offset` within the BAR lands in.
pub open spec fn spec_bar_region(offset: u64) -> BarRegion {
    if offset < BR_MSIX_PBA_OFFSET {
        BarRegion::MsixTable((offset - BR_MSIX_TABLE_OFFSET) as u64)
    } else if offset == BR_MSIX_PBA_OFFSET {
        BarRegion::PendingBitArray((offset - BR_MSIX_PBA_OFFSET) as u64)
    } else {
        BarRegion::Unmapped
    }
}

/// The region of the BAR based at `bar0` that an access at address `addr`
/// lands in. The guest accesses the BAR only at or above its base.
pub fn bar_region(addr: u64, bar0: u64) -> (r: BarRegion)
    requires
        bar0 <= addr,
    ensures
        r == spec_bar_region((addr - bar0) as u64),
{
    let offset = addr - bar0;
    if offset < BR_MSIX_PBA_OFFSET {
        BarRegion::MsixTable(offset - BR_MSIX_TABLE_OFFSET)
    } else if BR_MSIX_PBA_OFFSET == offset {
        BarRegion::PendingBitArray(offset - BR_MSIX_PBA_OFFSET)
    } else {
        BarRegion::Unmapped
    }
}

/// The index of the configuration register that holds byte `offset` of
/// configuration space.
pub fn config_reg_index(offset: usize) -> (r: usize)
    ensures
        r == offset / 4,
        r * 4 <= offset < r * 4 + 4,
{
    offset / 4
}

/// The abstract state of a bridge.
pub struct BridgeModel {
    /// The bridge's bus address, once allocated.
    pub pci_address: Option<PciAddress>,
    /// The index of the BAR that holds the MSI-X table and pending bits.
    pub setting_bar: u8,
    /// The configuration register of the MSI-X capability, once added.
    pub msix_cap_reg_idx: Option<usize>,
}

impl BridgeModel {
    /// The state after the allocator handed out `allocated`: an address once
    /// recorded is kept.
    pub open spec fn after_allocate(self, allocated: Option<PciAddress>) -> BridgeModel {
        if self.pci_address is Some {
            self
        } else {
            BridgeModel { pci_address: allocated, ..self }
        }
    }

    /// What an address request answers in this state.
    pub open spec fn address_result(self) -> Result<PciAddress, PciDeviceError> {
        match self.pci_address {
            Some(a) => Ok(a),
            None => Err(PciDeviceError::PciAllocationFailed),
        }
    }
}

/// The bridge's own state.
pub struct PciBridge {
    pci_address: Option<PciAddress>,
    setting_bar: u8,
    msix_cap_reg_idx: Option<usize>,
}

impl View for PciBridge {
    type V = BridgeModel;

    closed spec fn view(&self) -> BridgeModel {
        BridgeModel {
            pci_address: self.pci_address,
            setting_bar: self.setting_bar,
            msix_cap_reg_idx: self.msix_cap_reg_idx,
        }
    }
}

impl PciBridge {
    /// A bridge with no address, BAR 0 for its MSI-X structures and no MSI-X
    /// capability yet.
    pub fn new() -> (r: PciBridge)
        ensures
            r@.pci_address == None::<PciAddress>,
            r@.setting_bar == 0,
            r@.msix_cap_reg_idx == None::<usize>,
    {
        PciBridge { pci_address: None, setting_bar: 0, msix_cap_reg_idx: None }
    }

    /// Whether the bridge still needs a bus address from the allocator.
    pub fn needs_address(&self) -> (r: bool)
        ensures
            r == (self@.pci_address is None),
    {
        self.pci_address.is_none()
    }

    /// Settles the bridge's bus address. An address once recorded is kept;
    /// otherwise `allocated`, what the allocator handed out, is recorded.
    /// Fails when the bridge is left without an address.
    pub fn allocate_address(&mut self, allocated: Option<PciAddress>) -> (r: Result<PciAddress, PciDeviceError>)
        ensures
            final(self)@ == old(self)@.after_allocate(allocated),
            r == final(self)@.address_result(),
    {
        if self.pci_address.is_none() {
            self.pci_address = allocated;
        }
        match self.pci_address {
            Some(a) => Ok(a),
            None => Err(PciDeviceError::PciAllocationFailed),
        }
    }

    /// The bridge's bus address, once allocated.
    pub fn pci_address(&self) -> (r: Option<PciAddress>)
        ensures
            r == self@.pci_address,
    {
        self.pci_address
    }

    /// Records the index that the configuration space gave the bridge's BAR;
    /// the index is kept as a byte.
    pub fn set_setting_bar(&mut self, bar_idx: usize)
        ensures
            final(self)@.setting_bar == bar_idx as u8,
            final(self)@.pci_address == old(self)@.pci_address,
            final(self)@.msix_cap_reg_idx == old(self)@.msix_cap_reg_idx,
    {
        self.setting_bar = bar_idx as u8;
    }

    /// The index of the BAR that holds the MSI-X structures.
    pub fn setting_bar(&self) -> (r: u8)
        ensures
            r == self@.setting_bar,
    {
        self.setting_bar
    }

    /// Records that the MSI-X capability was placed at byte `msix_cap_reg` of
    /// configuration space.
    pub fn set_msix_cap_offset(&mut self, msix_cap_reg: usize)
        ensures
            final(self)@.msix_cap_reg_idx == Some(msix_cap_reg / 4),
            final(self)@.pci_address == old(self)@.pci_address,
            final(self)@.setting_bar == old(self)@.setting_bar,
    {
        self.msix_cap_reg_idx = Some(config_reg_index(msix_cap_reg));
    }

    /// Who answers a guest read of configuration register `reg_idx`: the
    /// MSI-X capability's register is answered by the MSI-X state alone, every
    /// other by the device behind the bridge.
    pub fn config_read_source(&self, reg_idx: usize) -> (r: ConfigReadSource)
        ensures
            r == (if self@.msix_cap_reg_idx == Some(reg_idx) {
                ConfigReadSource::MsixCapability
            } else {
                ConfigReadSource::Device
            }),
    {
        if self.is_msix_cap_reg(reg_idx) {
            ConfigReadSource::MsixCapability
        } else {
            ConfigReadSource::Device
        }
    }

    /// Who takes a guest write to configuration register `reg_idx`: the MSI-X
    /// state when it is the MSI-X capability's register, and in every case the
    /// device behind the bridge and the configuration space.
    pub fn config_write_targets(&self, reg_idx: usize) -> (t: ConfigWriteTargets)
        ensures
            t.msix == (self@.msix_cap_reg_idx == Some(reg_idx)),
            t.device,
            t.config,
    {
        ConfigWriteTargets { msix: self.is_msix_cap_reg(reg_idx), device: true, config: true }
    }

    /// Whether configuration register `reg_idx` is the MSI-X capability's.
    fn is_msix_cap_reg(&self, reg_idx: usize) -> (r: bool)
        ensures
            r == (self@.msix_cap_reg_idx == Some(reg_idx)),
    {
        match self.msix_cap_reg_idx {
            Some(msix_cap_reg_idx) => msix_cap_reg_idx == reg_idx,
            None => false,
        }
    }
}

} // verus!
