use lib::cap::{PciCapabilityID, PcieCap, PcieDevicePortType, PCIE_CAP_LEN};
use lib::root_port::get_word;

#[test]
fn root_port_capability_with_slot() {
    let c = PcieCap::new(PcieDevicePortType::RootPort, true, 0);
    assert_eq!(c.pcie_cap, 0x0142);
    assert_eq!(c.dev_cap, 0x8000);
    assert_eq!(c.link_cap, 0x11);
    assert_eq!(c.link_status, 0x11);
    assert_eq!(c.slot_cap, 0x79);
    assert_eq!(c.slot_control, 0x3C0);
    assert_eq!(c.slot_status, 0);
    assert_eq!(c.dev_control, 0);
    assert_eq!(c.root_status, 0);
    assert_eq!(c.slot_cap_2, 0);
}

#[test]
fn endpoint_capability_without_slot() {
    let c = PcieCap::new(PcieDevicePortType::PcieEndpoint, false, 3);
    assert_eq!(c.pcie_cap, 0x0602);
    assert_eq!(c.slot_cap, 0);
    assert_eq!(c.slot_control, 0);
}

#[test]
fn capability_register_keeps_seven_bits_of_the_message_number() {
    let c = PcieCap::new(PcieDevicePortType::RCEventCollector, true, 0xFFFF);
    assert_eq!(c.pcie_cap, 0xFFA2);
    assert_eq!(c.pcie_cap & 0xf, 2);
    assert_eq!((c.pcie_cap >> 4) & 0xf, 0xa);
    assert_eq!((c.pcie_cap >> 8) & 1, 1);
    assert_eq!(c.pcie_cap >> 9, 0x7f);
}

#[test]
fn port_type_codes() {
    assert_eq!(PcieDevicePortType::PcieEndpoint.code(), 0);
    assert_eq!(PcieDevicePortType::PcieLegacyEndpoint.code(), 1);
    assert_eq!(PcieDevicePortType::RootPort.code(), 4);
    assert_eq!(PcieDevicePortType::UpstreamPort.code(), 5);
    assert_eq!(PcieDevicePortType::DownstreamPort.code(), 6);
    assert_eq!(PcieDevicePortType::Pcie2PciBridge.code(), 7);
    assert_eq!(PcieDevicePortType::Pci2PcieBridge.code(), 8);
    assert_eq!(PcieDevicePortType::RCIntegratedEndpoint.code(), 9);
    assert_eq!(PcieDevicePortType::RCEventCollector.code(), 0xa);
}

#[test]
fn capability_bytes_layout() {
    let c = PcieCap::new(PcieDevicePortType::RootPort, true, 0);
    let b = c.bytes();
    assert_eq!(b.len(), PCIE_CAP_LEN);
    let mut expected = vec![0u8; 60];
    expected[2] = 0x42;
    expected[3] = 0x01;
    expected[5] = 0x80;
    expected[12] = 0x11;
    expected[18] = 0x11;
    expected[20] = 0x79;
    expected[24] = 0xC0;
    expected[25] = 0x03;
    assert_eq!(b, expected);
}

#[test]
fn capability_bytes_are_little_endian_per_field() {
    let mut c = PcieCap::new(PcieDevicePortType::RootPort, false, 0);
    c.cap_vndr = 0x10;
    c.cap_next = 0x44;
    c.root_status = 0x0403_0201;
    c.slot_status_2 = 0xBEEF;
    c.slot_status = 0x1234;
    let b = c.bytes();
    assert_eq!(b[0], 0x10);
    assert_eq!(b[1], 0x44);
    assert_eq!(&b[32..36], &[1, 2, 3, 4]);
    assert_eq!(&b[26..28], &[0x34, 0x12]);
    assert_eq!(&b[58..60], &[0xEF, 0xBE]);
}

#[test]
fn capability_id_and_writable_bits() {
    let c = PcieCap::new(PcieDevicePortType::RootPort, true, 0);
    assert_eq!(c.id(), PciCapabilityID::PCIExpress);
    assert_eq!(c.id().code(), 0x10);
    let w = c.writable_bits();
    assert_eq!(
        w,
        vec![0u32, 0, 0xf_ffff, 0, 0x3000_0fff, 0, 0x11f_1fff, 0x1f, 0, 0, 0, 0, 0, 0, 0]
    );
    assert_eq!(w.len() * 4, PCIE_CAP_LEN);
}

#[test]
fn slot_registers_read_back_from_the_byte_image() {
    let mut c = PcieCap::new(PcieDevicePortType::RootPort, true, 5);
    c.slot_status = 0x0049;
    let b = c.bytes();
    assert_eq!(get_word(&b[0x18..0x1A]), Some(c.slot_control));
    assert_eq!(get_word(&b[0x1A..0x1C]), Some(0x0049));
    assert_eq!(get_word(&b[2..4]), Some(c.pcie_cap));
}
