//! The PCI Express capability structure that a port exposes in its
//! configuration space.
use vstd::prelude::*;

verus! {

/// The device/port type field of the PCI Express capabilities register.
#[derive(Clone, Copy, Debug, PartialEq, Eq, Structural)]
pub enum PcieDevicePortType {
    PcieEndpoint,
    PcieLegacyEndpoint,
    RootPort,
    UpstreamPort,
    DownstreamPort,
    Pcie2PciBridge,
    Pci2PcieBridge,
    RCIntegratedEndpoint,
    RCEventCollector,
}

impl PcieDevicePortType {
    /// The four-bit encoding of the port type in the capabilities register.
    pub open spec fn spec_code(self) -> u16 {
        match self {
            PcieDevicePortType::PcieEndpoint => 0,
            PcieDevicePortType::PcieLegacyEndpoint => 1,
            PcieDevicePortType::RootPort => 4,
            PcieDevicePortType::UpstreamPort => 5,
            PcieDevicePortType::DownstreamPort => 6,
            PcieDevicePortType::Pcie2PciBridge => 7,
            PcieDevicePortType::Pci2PcieBridge => 8,
            PcieDevicePortType::RCIntegratedEndpoint => 9,
            PcieDevicePortType::RCEventCollector => 0xa,
        }
    }

    /// Returns the encoding of the port type.
    pub fn code(&self) -> (c: u16)
        ensures
            c == self.spec_code(),
            c < 16,
    {
        match self {
            PcieDevicePortType::PcieEndpoint => 0,
            PcieDevicePortType::PcieLegacyEndpoint => 1,
            PcieDevicePortType::RootPort => 4,
            PcieDevicePortType::UpstreamPort => 5,
            PcieDevicePortType::DownstreamPort => 6,
            PcieDevicePortType::Pcie2PciBridge => 7,
            PcieDevicePortType::Pci2PcieBridge => 8,
            PcieDevicePortType::RCIntegratedEndpoint => 9,
            PcieDevicePortType::RCEventCollector => 0xa,
        }
    }
}


/// The capability identifiers of the PCI capability list.
#[derive(Clone, Copy, Debug, PartialEq, Eq, Structural)]
pub enum PciCapabilityID {
    ListID,
    PowerManagement,
    AcceleratedGraphicsPort,
    VitalProductData,
    SlotIdentification,
    MessageSignalledInterrupts,
    CompactPCIHotSwap,
    PCIX,
    HyperTransport,
    VendorSpecific,
    Debugport,
    CompactPCICentralResourceControl,
    PCIStandardHotPlugController,
    BridgeSubsystemVendorDeviceID,
    AGPTargetPCIPCIbridge,
    SecureDevice,
    PCIExpress,
    MSIX,
    SATADataIndexConf,
    PCIAdvancedFeatures,
    PCIEnhancedAllocation,
}

impl PciCapabilityID {
    /// The identifier byte of the capability in the capability list.
    pub open spec fn spec_code(self) -> u8 {
        match self {
            PciCapabilityID::ListID => 0x00,
            PciCapabilityID::PowerManagement => 0x01,
            PciCapabilityID::AcceleratedGraphicsPort => 0x02,
            PciCapabilityID::VitalProductData => 0x03,
            PciCapabilityID::SlotIdentification => 0x04,
            PciCapabilityID::MessageSignalledInterrupts => 0x05,
            PciCapabilityID::CompactPCIHotSwap => 0x06,
            PciCapabilityID::PCIX => 0x07,
            PciCapabilityID::HyperTransport => 0x08,
            PciCapabilityID::VendorSpecific => 0x09,
            PciCapabilityID::Debugport => 0x0A,
            PciCapabilityID::CompactPCICentralResourceControl => 0x0B,
            PciCapabilityID::PCIStandardHotPlugController => 0x0C,
            PciCapabilityID::BridgeSubsystemVendorDeviceID => 0x0D,
            PciCapabilityID::AGPTargetPCIPCIbridge => 0x0E,
            PciCapabilityID::SecureDevice => 0x0F,
            PciCapabilityID::PCIExpress => 0x10,
            PciCapabilityID::MSIX => 0x11,
            PciCapabilityID::SATADataIndexConf => 0x12,
            PciCapabilityID::PCIAdvancedFeatures => 0x13,
            PciCapabilityID::PCIEnhancedAllocation => 0x14,
        }
    }

    /// Returns the identifier byte of the capability.
    pub fn code(&self) -> (c: u8)
        ensures
            c == self.spec_code(),
    {
        match self {
            PciCapabilityID::ListID => 0x00,
            PciCapabilityID::PowerManagement => 0x01,
            PciCapabilityID::AcceleratedGraphicsPort => 0x02,
            PciCapabilityID::VitalProductData => 0x03,
            PciCapabilityID::SlotIdentification => 0x04,
            PciCapabilityID::MessageSignalledInterrupts => 0x05,
            PciCapabilityID::CompactPCIHotSwap => 0x06,
            PciCapabilityID::PCIX => 0x07,
            PciCapabilityID::HyperTransport => 0x08,
            PciCapabilityID::VendorSpecific => 0x09,
            PciCapabilityID::Debugport => 0x0A,
            PciCapabilityID::CompactPCICentralResourceControl => 0x0B,
            PciCapabilityID::PCIStandardHotPlugController => 0x0C,
            PciCapabilityID::BridgeSubsystemVendorDeviceID => 0x0D,
            PciCapabilityID::AGPTargetPCIPCIbridge => 0x0E,
            PciCapabilityID::SecureDevice => 0x0F,
            PciCapabilityID::PCIExpress => 0x10,
            PciCapabilityID::MSIX => 0x11,
            PciCapabilityID::SATADataIndexConf => 0x12,
            PciCapabilityID::PCIAdvancedFeatures => 0x13,
            PciCapabilityID::PCIEnhancedAllocation => 0x14,
        }
    }
}

/// Length in bytes of the PCI Express capability structure.
pub const PCIE_CAP_LEN: usize = 0x3C;

/// Version of the capability structure that the port reports.
pub const PCIE_CAP_VERSION: u16 = 0x2;
/// Bit position of the device/port type field in the capabilities register.
pub const PCIE_TYPE_SHIFT: u16 = 0x4;
/// Bit position of the "slot implemented" flag in the capabilities register.
pub const PCIE_CAP_SLOT_SHIFT: u16 = 0x8;
/// Bit position of the interrupt message number in the capabilities register.
pub const PCIE_CAP_IRQ_NUM_SHIFT: u16 = 0x9;

/// Device capabilities: role-based error reporting.
pub const PCIE_DEVCAP_RBER: u32 = 0x0000_8000;
/// Link width x1.
pub const PCIE_LINK_X1: u16 = 0x10;
/// Link speed 2.5 GT/s.
pub const PCIE_LINK_2_5GT: u16 = 0x01;

/// Slot capabilities: attention button present.
pub const PCIE_SLTCAP_ABP: u32 = 0x01;
/// Slot capabilities: attention indicator present.
pub const PCIE_SLTCAP_AIP: u32 = 0x08;
/// Slot capabilities: power indicator present.
pub const PCIE_SLTCAP_PIP: u32 = 0x10;
/// Slot capabilities: hot-plug surprise.
pub const PCIE_SLTCAP_HPS: u32 = 0x20;
/// Slot capabilities: hot-plug capable.
pub const PCIE_SLTCAP_HPC: u32 = 0x40;

/// Slot control: power indicator off.
pub const PCIE_SLTCTL_PIC_OFF: u16 = 0x300;
/// Slot control: attention indicator off.
pub const PCIE_SLTCTL_AIC_OFF: u16 = 0xC0;

/// The PCI Express capability structure, field by field, in the order in
/// which it is laid out in configuration space.
#[derive(Clone, Copy, Debug)]
pub struct PcieCap {
    pub cap_vndr: u8,
    pub cap_next: u8,
    pub pcie_cap: u16,
    pub dev_cap: u32,
    pub dev_control: u16,
    pub dev_status: u16,
    pub link_cap: u32,
    pub link_control: u16,
    pub link_status: u16,
    pub slot_cap: u32,
    pub slot_control: u16,
    pub slot_status: u16,
    pub root_control: u16,
    pub root_cap: u16,
    pub root_status: u32,
    pub dev_cap_2: u32,
    pub dev_control_2: u16,
    pub dev_status_2: u16,
    pub link_cap_2: u32,
    pub link_control_2: u16,
    pub link_status_2: u16,
    pub slot_cap_2: u32,
    pub slot_control_2: u16,
    pub slot_status_2: u16,
}

/// The PCI Express capabilities register of a port of the given type, with
/// or without a slot, signalling its interrupts with message `irq_num`.
pub open spec fn spec_pcie_cap_reg(device_type: PcieDevicePortType, slot: bool, irq_num: u16) -> u16 {
    PCIE_CAP_VERSION
        | (device_type.spec_code() << PCIE_TYPE_SHIFT)
        | (if slot { 1u16 << PCIE_CAP_SLOT_SHIFT } else { 0u16 })
        | (irq_num << PCIE_CAP_IRQ_NUM_SHIFT)
}

/// The slot capabilities of a port with a hot-pluggable slot.
pub open spec fn spec_slot_cap_with_slot() -> u32 {
    PCIE_SLTCAP_ABP | PCIE_SLTCAP_AIP | PCIE_SLTCAP_PIP | PCIE_SLTCAP_HPS | PCIE_SLTCAP_HPC
}

impl PcieCap {
    /// The capability structure that `new` builds: a x1 link at 2.5 GT/s,
    /// role-based error reporting, and, with a slot, a hot-plug capable slot
    /// whose power and attention indicators start off. Every other register
    /// is zero.
    pub open spec fn spec_new(device_type: PcieDevicePortType, slot: bool, irq_num: u16) -> PcieCap {
        PcieCap {
            cap_vndr: 0,
            cap_next: 0,
            pcie_cap: spec_pcie_cap_reg(device_type, slot, irq_num),
            dev_cap: PCIE_DEVCAP_RBER,
            dev_control: 0,
            dev_status: 0,
            link_cap: (PCIE_LINK_X1 | PCIE_LINK_2_5GT) as u32,
            link_control: 0,
            link_status: PCIE_LINK_X1 | PCIE_LINK_2_5GT,
            slot_cap: if slot { spec_slot_cap_with_slot() } else { 0 },
            slot_control: if slot { PCIE_SLTCTL_PIC_OFF | PCIE_SLTCTL_AIC_OFF } else { 0 },
            slot_status: 0,
            root_control: 0,
            root_cap: 0,
            root_status: 0,
            dev_cap_2: 0,
            dev_control_2: 0,
            dev_status_2: 0,
            link_cap_2: 0,
            link_control_2: 0,
            link_status_2: 0,
            slot_cap_2: 0,
            slot_control_2: 0,
            slot_status_2: 0,
        }
    }

    /// Builds the capability structure of a port of type `device_type`, with a
    /// hot-plug slot when `slot` holds, that signals interrupts with message
    /// number `irq_num` (of which the capabilities register keeps the low
    /// seven bits).
    pub fn new(device_type: PcieDevicePortType, slot: bool, irq_num: u16) -> (r: PcieCap)
        ensures
            r == Self::spec_new(device_type, slot, irq_num),
            r.pcie_cap & 0xf == PCIE_CAP_VERSION,
            (r.pcie_cap >> 4u16) & 0xf == device_type.spec_code(),
            ((r.pcie_cap >> 8u16) & 1 == 1) == slot,
            r.pcie_cap >> 9u16 == irq_num & 0x7f,
            r.dev_cap == 0x8000,
            r.link_cap == 0x11,
            r.link_status == 0x11,
            r.slot_cap == (if slot { 0x79u32 } else { 0u32 }),
            r.slot_control == (if slot { 0x3C0u16 } else { 0u16 }),
    {
        let code = device_type.code();
        let mut pcie_cap = PCIE_CAP_VERSION;
        pcie_cap |= code << PCIE_TYPE_SHIFT;
        if slot {
            pcie_cap |= 1u16 << PCIE_CAP_SLOT_SHIFT;
        } else {
            proof {
                let p = pcie_cap;
                assert(p | 0u16 == p) by (bit_vector);
            }
        }
        pcie_cap |= irq_num << PCIE_CAP_IRQ_NUM_SHIFT;

        let dev_cap = PCIE_DEVCAP_RBER;
        let link_cap = (PCIE_LINK_X1 | PCIE_LINK_2_5GT) as u32;
        let link_status = PCIE_LINK_X1 | PCIE_LINK_2_5GT;

        let mut slot_cap: u32 = 0;
        let mut slot_control: u16 = 0;
        if slot {
            slot_cap = PCIE_SLTCAP_ABP | PCIE_SLTCAP_AIP | PCIE_SLTCAP_PIP | PCIE_SLTCAP_HPS
                | PCIE_SLTCAP_HPC;
            slot_control = PCIE_SLTCTL_PIC_OFF | PCIE_SLTCTL_AIC_OFF;
        }
        proof {
            lemma_pcie_cap_reg_fields(device_type, slot, irq_num);
            assert(spec_slot_cap_with_slot() == 0x79u32) by (bit_vector);
            assert((PCIE_SLTCTL_PIC_OFF | PCIE_SLTCTL_AIC_OFF) == 0x3C0u16) by (bit_vector);
            assert((PCIE_LINK_X1 | PCIE_LINK_2_5GT) == 0x11u16) by (bit_vector);
        }
        PcieCap {
            cap_vndr: 0,
            cap_next: 0,
            pcie_cap,
            dev_cap,
            dev_control: 0,
            dev_status: 0,
            link_cap,
            link_control: 0,
            link_status,
            slot_cap,
            slot_control,
            slot_status: 0,
            root_control: 0,
            root_cap: 0,
            root_status: 0,
            dev_cap_2: 0,
            dev_control_2: 0,
            dev_status_2: 0,
            link_cap_2: 0,
            link_control_2: 0,
            link_status_2: 0,
            slot_cap_2: 0,
            slot_control_2: 0,
            slot_status_2: 0,
        }
    }
}

/// The two bytes of `x`, least significant first.
pub open spec fn le16(x: u16) -> Seq<u8> {
    seq![(x & 0xff) as u8, (x >> 8u16) as u8]
}

/// The four bytes of `x`, least significant first.
pub open spec fn le32(x: u32) -> Seq<u8> {
    seq![(x & 0xff) as u8, ((x >> 8u32) & 0xff) as u8, ((x >> 16u32) & 0xff) as u8, (x >> 24u32) as u8]
}

/// The writable-bit masks of the capability, one for each of its
/// double words.
pub open spec fn spec_writable_bits() -> Seq<u32> {
    seq![
        0u32,
        0,
        0xf_ffff,
        0,
        0x3000_0fff,
        0,
        0x11f_1fff,
        0x1f,
        0,
        0,
        0,
        0,
        0,
        0,
        0,
    ]
}

impl PcieCap {
    /// The structure as it lies in configuration space: each field in
    /// declaration order, little-endian, with no padding.
    pub open spec fn spec_bytes(self) -> Seq<u8> {
        seq![self.cap_vndr, self.cap_next]
            + le16(self.pcie_cap)
            + le32(self.dev_cap)
            + le16(self.dev_control)
            + le16(self.dev_status)
            + le32(self.link_cap)
            + le16(self.link_control)
            + le16(self.link_status)
            + le32(self.slot_cap)
            + le16(self.slot_control)
            + le16(self.slot_status)
            + le16(self.root_control)
            + le16(self.root_cap)
            + le32(self.root_status)
            + le32(self.dev_cap_2)
            + le16(self.dev_control_2)
            + le16(self.dev_status_2)
            + le32(self.link_cap_2)
            + le16(self.link_control_2)
            + le16(self.link_status_2)
            + le32(self.slot_cap_2)
            + le16(self.slot_control_2)
            + le16(self.slot_status_2)
    }

    /// The bytes of the capability structure as the guest reads them.
    pub fn bytes(&self) -> (r: Vec<u8>)
        ensures
            r@ == self.spec_bytes(),
            r@.len() == PCIE_CAP_LEN,
    {
        let mut v: Vec<u8> = Vec::new();
        v.push(self.cap_vndr);
        v.push(self.cap_next);
        push_le16(&mut v, self.pcie_cap);
        push_le32(&mut v, self.dev_cap);
        push_le16(&mut v, self.dev_control);
        push_le16(&mut v, self.dev_status);
        push_le32(&mut v, self.link_cap);
        push_le16(&mut v, self.link_control);
        push_le16(&mut v, self.link_status);
        push_le32(&mut v, self.slot_cap);
        push_le16(&mut v, self.slot_control);
        push_le16(&mut v, self.slot_status);
        push_le16(&mut v, self.root_control);
        push_le16(&mut v, self.root_cap);
        push_le32(&mut v, self.root_status);
        push_le32(&mut v, self.dev_cap_2);
        push_le16(&mut v, self.dev_control_2);
        push_le16(&mut v, self.dev_status_2);
        push_le32(&mut v, self.link_cap_2);
        push_le16(&mut v, self.link_control_2);
        push_le16(&mut v, self.link_status_2);
        push_le32(&mut v, self.slot_cap_2);
        push_le16(&mut v, self.slot_control_2);
        push_le16(&mut v, self.slot_status_2);
        assert(v@ =~= self.spec_bytes());
        v
    }

    /// The capability's identifier: PCI Express.
    pub fn id(&self) -> (r: PciCapabilityID)
        ensures
            r == PciCapabilityID::PCIExpress,
    {
        PciCapabilityID::PCIExpress
    }

    /// The masks of the bits that the guest may write, one per double word
    /// of the structure.
    pub fn writable_bits(&self) -> (r: Vec<u32>)
        ensures
            r@ == spec_writable_bits(),
    {
        let r: Vec<u32> = vec![
            0u32,
            0,
            0xf_ffff,
            0,
            0x3000_0fff,
            0,
            0x11f_1fff,
            0x1f,
            0,
            0,
            0,
            0,
            0,
            0,
            0,
        ];
        assert(r@ =~= spec_writable_bits());
        r
    }
}

/// Appends the two bytes of `x`, least significant first.
fn push_le16(v: &mut Vec<u8>, x: u16)
    ensures
        final(v)@ == old(v)@ + le16(x),
{
    v.push((x & 0xff) as u8);
    v.push((x >> 8u16) as u8);
    assert(v@ =~= old(v)@ + le16(x));
}

/// Appends the four bytes of `x`, least significant first.
fn push_le32(v: &mut Vec<u8>, x: u32)
    ensures
        final(v)@ == old(v)@ + le32(x),
{
    v.push((x & 0xff) as u8);
    v.push(((x >> 8u32) & 0xff) as u8);
    v.push(((x >> 16u32) & 0xff) as u8);
    v.push((x >> 24u32) as u8);
    assert(v@ =~= old(v)@ + le32(x));
}

/// The capabilities register that `new` builds decodes back into the version,
/// the port type, the slot flag and the low seven bits of the message number.
pub proof fn lemma_pcie_cap_reg_fields(device_type: PcieDevicePortType, slot: bool, irq_num: u16)
    ensures
        spec_pcie_cap_reg(device_type, slot, irq_num) & 0xf == PCIE_CAP_VERSION,
        (spec_pcie_cap_reg(device_type, slot, irq_num) >> 4u16) & 0xf == device_type.spec_code(),
        ((spec_pcie_cap_reg(device_type, slot, irq_num) >> 8u16) & 1 == 1) == slot,
        spec_pcie_cap_reg(device_type, slot, irq_num) >> 9u16 == irq_num & 0x7f,
{
    let c = device_type.spec_code();
    let s: u16 = if slot { 1u16 << 8u16 } else { 0u16 };
    assert(c < 16);
    assert((1u16 << 8u16) == 0x100) by (bit_vector);
    assert(s == 0 || s == 0x100) by (bit_vector)
        requires s == (if slot { 1u16 << 8u16 } else { 0u16 });
    let v = (2u16 | (c << 4u16)) | s | (irq_num << 9u16);
    assert(v & 0xf == 2 && (v >> 4u16) & 0xf == c && ((v >> 8u16) & 1 == 1) == (s == 0x100)
        && v >> 9u16 == irq_num & 0x7f) by (bit_vector)
        requires
            c < 16,
            s == 0 || s == 0x100,
            v == (2u16 | (c << 4u16)) | s | (irq_num << 9u16);
}

} // verus!
