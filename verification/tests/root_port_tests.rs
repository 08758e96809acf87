use lib::cap::{PciCapabilityID, PcieCap, PcieDevicePortType};
use lib::root_port::{get_word, HostHotPlugKey, PciAddress, PcieRootPort};

const CAP_REG: usize = 0x10;
const SLOT_REG: usize = CAP_REG + 6;

fn placed_port() -> PcieRootPort {
    let mut port = PcieRootPort::new();
    port.set_capability_reg_idx(PciCapabilityID::PCIExpress, CAP_REG);
    port
}

fn read(port: &PcieRootPort, reg_idx: usize, fill: u32) -> u32 {
    let mut data = fill;
    port.read_config(reg_idx, &mut data);
    data
}

fn guest() -> PciAddress {
    PciAddress { bus: 1, dev: 0, func: 0 }
}

fn key() -> HostHotPlugKey {
    HostHotPlugKey::Vfio { host_addr: PciAddress { bus: 3, dev: 2, func: 1 } }
}

#[test]
fn word_is_read_little_endian_from_two_bytes() {
    assert_eq!(get_word(&[0x12, 0x34]), Some(0x3412));
    assert_eq!(get_word(&[0xff, 0xff]), Some(0xffff));
    assert_eq!(get_word(&[0x12]), None);
    assert_eq!(get_word(&[0x12, 0x34, 0x56]), None);
    assert_eq!(get_word(&[]), None);
}

#[test]
fn identity_of_the_port() {
    let port = PcieRootPort::new();
    assert_eq!(port.get_device_id(), 0x3420);
    assert_eq!(port.debug_label(), "PcieRootPort".to_string());
    let caps = port.get_caps();
    assert_eq!(caps.len(), 1);
    let expected = PcieCap::new(PcieDevicePortType::RootPort, true, 0);
    assert_eq!(caps[0].bytes(), expected.bytes());
}

#[test]
fn reads_pass_through_before_the_capability_is_placed() {
    let port = PcieRootPort::new();
    assert_eq!(read(&port, SLOT_REG, 0xdead_beef), 0xdead_beef);
}

#[test]
fn only_the_pci_express_capability_is_placed() {
    let mut port = PcieRootPort::new();
    port.set_capability_reg_idx(PciCapabilityID::MSIX, CAP_REG);
    assert_eq!(read(&port, SLOT_REG, 0xdead_beef), 0xdead_beef);
    port.set_capability_reg_idx(PciCapabilityID::PCIExpress, CAP_REG);
    assert_eq!(read(&port, SLOT_REG, 0xdead_beef), 0x0000_03C0);
}

#[test]
fn slot_registers_are_read_at_their_offset_only() {
    let port = placed_port();
    assert_eq!(read(&port, SLOT_REG, 7), 0x0000_03C0);
    assert_eq!(read(&port, CAP_REG, 7), 7);
    assert_eq!(read(&port, CAP_REG + 14, 7), 7);
    assert_eq!(read(&port, CAP_REG + 15, 7), 7);
    assert_eq!(read(&port, CAP_REG - 1, 7), 7);
}

#[test]
fn changed_slot_control_completes_the_command() {
    let mut port = placed_port();
    // Command completed interrupts enabled: the interrupt fires.
    assert!(port.write_config(SLOT_REG, 0, &[0x10, 0x00]));
    assert_eq!(read(&port, SLOT_REG, 0), 0x0010_0010);
    // The same value again changes nothing.
    assert!(!port.write_config(SLOT_REG, 0, &[0x10, 0x00]));
    assert_eq!(read(&port, SLOT_REG, 0), 0x0010_0010);
}

#[test]
fn command_completed_without_interrupt_when_disabled() {
    let mut port = placed_port();
    assert!(!port.write_config(SLOT_REG, 0, &[0xC0, 0x01]));
    assert_eq!(read(&port, SLOT_REG, 0), 0x0010_01C0);
}

#[test]
fn slot_status_is_write_one_to_clear() {
    let mut port = placed_port();
    port.write_config(SLOT_REG, 0, &[0x00, 0x00]);
    assert_eq!(read(&port, SLOT_REG, 0), 0x0010_0000);
    // Writing zero clears nothing.
    assert!(!port.write_config(SLOT_REG, 2, &[0x00, 0x00]));
    assert_eq!(read(&port, SLOT_REG, 0), 0x0010_0000);
    // Writing one to command completed clears it.
    assert!(!port.write_config(SLOT_REG, 2, &[0x10, 0x00]));
    assert_eq!(read(&port, SLOT_REG, 0), 0x0000_0000);
}

#[test]
fn presence_detect_state_is_not_cleared_by_the_guest() {
    let mut port = placed_port();
    port.add_hotplug_device(key(), guest());
    port.hot_plug(guest());
    assert_eq!(read(&port, SLOT_REG, 0) >> 16, 0x49);
    assert!(!port.write_config(SLOT_REG, 2, &[0xff, 0xff]));
    assert_eq!(read(&port, SLOT_REG, 0) >> 16, 0x40);
}

#[test]
fn writes_of_other_lengths_are_ignored() {
    let mut port = placed_port();
    assert!(!port.write_config(SLOT_REG, 0, &[0x10]));
    assert!(!port.write_config(SLOT_REG, 0, &[0x10, 0x00, 0x00, 0x00]));
    assert_eq!(read(&port, SLOT_REG, 0), 0x0000_03C0);
}

#[test]
fn writes_elsewhere_are_ignored() {
    let mut port = placed_port();
    assert!(!port.write_config(CAP_REG, 0, &[0x10, 0x00]));
    assert!(!port.write_config(SLOT_REG, 1, &[0x10, 0x00]));
    assert!(!port.write_config(SLOT_REG, 100, &[0x10, 0x00]));
    assert!(!port.write_config(CAP_REG + 15, 0, &[0x10, 0x00]));
    assert_eq!(read(&port, SLOT_REG, 0), 0x0000_03C0);
}

#[test]
fn slot_control_write_through_the_previous_register() {
    let mut port = placed_port();
    // Byte offset 0x14 + 4 lands on slot control too.
    assert!(!port.write_config(CAP_REG + 5, 4, &[0x00, 0x00]));
    assert_eq!(read(&port, SLOT_REG, 0), 0x0010_0000);
}

#[test]
fn hot_plug_needs_the_recorded_device() {
    let mut port = placed_port();
    assert!(!port.hot_plug(guest()));
    assert_eq!(read(&port, SLOT_REG, 0), 0x0000_03C0);
    port.add_hotplug_device(key(), guest());
    assert!(!port.hot_plug(PciAddress { bus: 9, dev: 9, func: 1 }));
    assert_eq!(read(&port, SLOT_REG, 0), 0x0000_03C0);
}

#[test]
fn hot_plug_and_unplug_update_presence() {
    let mut port = placed_port();
    port.add_hotplug_device(key(), guest());
    // Hot-plug interrupts off: no interrupt.
    assert!(!port.hot_plug(guest()));
    assert_eq!(read(&port, SLOT_REG, 0), 0x0049_03C0);
    // Clear the change bits, enable hot-plug and presence detect changed interrupts.
    port.write_config(SLOT_REG, 2, &[0x09, 0x00]);
    port.write_config(SLOT_REG, 2, &[0x10, 0x00]);
    assert_eq!(read(&port, SLOT_REG, 0) >> 16, 0x40);
    assert!(port.write_config(SLOT_REG, 0, &[0x38, 0x00]) == true);
    port.write_config(SLOT_REG, 2, &[0x10, 0x00]);
    assert!(port.hot_unplug(guest()));
    assert_eq!(read(&port, SLOT_REG, 0), 0x0009_0038);
    assert!(port.hot_plug(guest()));
    assert_eq!(read(&port, SLOT_REG, 0), 0x0049_0038);
}

#[test]
fn hot_plug_interrupt_needs_a_source_enabled() {
    let mut port = placed_port();
    port.add_hotplug_device(key(), guest());
    // Hot-plug interrupt enabled but neither attention button nor presence change.
    port.write_config(SLOT_REG, 0, &[0x20, 0x00]);
    assert!(!port.hot_plug(guest()));
    // Attention button pressed enabled as well.
    port.write_config(SLOT_REG, 0, &[0x21, 0x00]);
    assert!(port.hot_unplug(guest()));
}

#[test]
fn hotplug_device_is_found_by_its_host_key() {
    let mut port = PcieRootPort::new();
    assert_eq!(port.get_hotplug_device(key()), None);
    port.add_hotplug_device(key(), guest());
    assert_eq!(port.get_hotplug_device(key()), Some(guest()));
    let other = HostHotPlugKey::Vfio { host_addr: PciAddress { bus: 3, dev: 2, func: 0 } };
    assert_eq!(port.get_hotplug_device(other), None);
}

#[test]
fn repeated_writes_change_nothing() {
    let mut port = placed_port();
    port.add_hotplug_device(key(), guest());
    port.hot_plug(guest());
    assert!(port.write_config(SLOT_REG, 0, &[0x10, 0x00]));
    let after_control = read(&port, SLOT_REG, 0);
    assert!(!port.write_config(SLOT_REG, 0, &[0x10, 0x00]));
    assert_eq!(read(&port, SLOT_REG, 0), after_control);
    assert!(!port.write_config(SLOT_REG, 2, &[0x19, 0x00]));
    let after_status = read(&port, SLOT_REG, 0);
    assert_eq!(after_status, 0x0040_0010);
    assert!(!port.write_config(SLOT_REG, 2, &[0x19, 0x00]));
    assert_eq!(read(&port, SLOT_REG, 0), after_status);
}
