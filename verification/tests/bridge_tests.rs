use lib::bridge::{
    bar_region, config_reg_index, BarRegion, ConfigReadSource, ConfigWriteTargets, PciBridge,
    PciDeviceError,
};
use lib::root_port::PciAddress;

#[test]
fn address_is_allocated_once() {
    let mut bridge = PciBridge::new();
    assert!(bridge.needs_address());
    assert_eq!(bridge.allocate_address(None), Err(PciDeviceError::PciAllocationFailed));
    assert!(bridge.needs_address());
    let a = PciAddress { bus: 0, dev: 3, func: 0 };
    let b = PciAddress { bus: 0, dev: 4, func: 0 };
    assert_eq!(bridge.allocate_address(Some(a)), Ok(a));
    assert!(!bridge.needs_address());
    assert_eq!(bridge.allocate_address(Some(b)), Ok(a));
    assert_eq!(bridge.allocate_address(None), Ok(a));
    assert_eq!(bridge.pci_address(), Some(a));
}

fn all_targets(msix: bool) -> ConfigWriteTargets {
    ConfigWriteTargets { msix, device: true, config: true }
}

#[test]
fn msix_capability_register_routing() {
    let mut bridge = PciBridge::new();
    assert_eq!(bridge.config_read_source(0), ConfigReadSource::Device);
    assert_eq!(bridge.config_write_targets(0), all_targets(false));
    bridge.set_msix_cap_offset(0x50);
    assert_eq!(bridge.config_read_source(0x14), ConfigReadSource::MsixCapability);
    assert_eq!(bridge.config_write_targets(0x14), all_targets(true));
    assert_eq!(bridge.config_read_source(0x15), ConfigReadSource::Device);
    assert_eq!(bridge.config_write_targets(0x15), all_targets(false));
    bridge.set_msix_cap_offset(0x4c);
    assert_eq!(bridge.config_read_source(0x13), ConfigReadSource::MsixCapability);
    assert_eq!(bridge.config_read_source(0x14), ConfigReadSource::Device);
}

#[test]
fn setting_bar_is_kept_as_a_byte() {
    let mut bridge = PciBridge::new();
    assert_eq!(bridge.setting_bar(), 0);
    bridge.set_setting_bar(2);
    assert_eq!(bridge.setting_bar(), 2);
    bridge.set_setting_bar(0x102);
    assert_eq!(bridge.setting_bar(), 2);
}

#[test]
fn bar_accesses_are_routed() {
    assert_eq!(bar_region(0x1000, 0x1000), BarRegion::MsixTable(0));
    assert_eq!(bar_region(0x1010, 0x1000), BarRegion::MsixTable(0x10));
    assert_eq!(bar_region(0x10ff, 0x1000), BarRegion::MsixTable(0xff));
    assert_eq!(bar_region(0x1100, 0x1000), BarRegion::PendingBitArray(0));
    assert_eq!(bar_region(0x1104, 0x1000), BarRegion::Unmapped);
    assert_eq!(bar_region(0x1fff, 0x1000), BarRegion::Unmapped);
}

#[test]
fn config_register_of_a_byte_offset() {
    assert_eq!(config_reg_index(0), 0);
    assert_eq!(config_reg_index(0x4f), 0x13);
    assert_eq!(config_reg_index(0x50), 0x14);
}
