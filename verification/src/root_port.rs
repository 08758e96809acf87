//! The slot registers of a virtual PCIe root port: what the guest reads and
//! writes in the PCI Express capability, and how hot-plug events change them.
use vstd::prelude::*;
use crate::cap::{PcieCap, PcieDevicePortType, PciCapabilityID, PCIE_CAP_LEN, PCIE_SLTCTL_PIC_OFF, PCIE_SLTCTL_AIC_OFF};

verus! {

/// Offset of the slot control register in the PCI Express capability.
pub const PCIE_SLTCTL_OFFSET: usize = 0x18;
/// Slot control: attention button pressed enable.
pub const PCIE_SLTCTL_ABPE: u16 = 0x01;
/// Slot control: presence detect changed enable.
pub const PCIE_SLTCTL_PDCE: u16 = 0x08;
/// Slot control: command completed interrupt enable.
pub const PCIE_SLTCTL_CCIE: u16 = 0x10;
/// Slot control: hot-plug interrupt enable.
pub const PCIE_SLTCTL_HPIE: u16 = 0x20;

/// Offset of the slot status register in the PCI Express capability.
pub const PCIE_SLTSTA_OFFSET: usize = 0x1A;
/// Slot status: attention button pressed.
pub const PCIE_SLTSTA_ABP: u16 = 0x0001;
/// Slot status: power fault detected.
pub const PCIE_SLTSTA_PFD: u16 = 0x0002;
/// Slot status: presence detect changed.
pub const PCIE_SLTSTA_PDC: u16 = 0x0008;
/// Slot status: command completed.
pub const PCIE_SLTSTA_CC: u16 = 0x0010;
/// Slot status: presence detect state.
pub const PCIE_SLTSTA_PDS: u16 = 0x0040;
/// Slot status: data link layer state changed.
pub const PCIE_SLTSTA_DLLSC: u16 = 0x0100;

/// The slot status bits that the guest clears by writing a one to them.
pub const PCIE_SLTSTA_RW1C: u16 = 0x011B;
/// The slot status bits that the root port ever sets.
pub const PCIE_SLTSTA_USED: u16 = 0x0059;

/// The write-one-to-clear bits are attention button pressed, power fault
/// detected, presence detect changed, command completed and data link layer
/// state changed; the bits the port sets are attention button pressed,
/// presence detect changed, command completed and presence detect state.
pub proof fn lemma_slot_status_masks()
    ensures
        PCIE_SLTSTA_RW1C == PCIE_SLTSTA_ABP | PCIE_SLTSTA_PFD | PCIE_SLTSTA_PDC | PCIE_SLTSTA_CC
            | PCIE_SLTSTA_DLLSC,
        PCIE_SLTSTA_USED == PCIE_SLTSTA_ABP | PCIE_SLTSTA_PDC | PCIE_SLTSTA_CC | PCIE_SLTSTA_PDS,
{
    assert(0x011Bu16 == 0x0001u16 | 0x0002u16 | 0x0008u16 | 0x0010u16 | 0x0100u16) by (bit_vector);
    assert(0x0059u16 == 0x0001u16 | 0x0008u16 | 0x0010u16 | 0x0040u16) by (bit_vector);
}

/// Every change that the port makes to its slot status keeps it within the
/// bits that the port implements: setting command completed, clearing the
/// written write-one-to-clear bits `w`, plugging in and unplugging.
pub proof fn lemma_status_changes_keep_bits(st: u16, w: u16)
    requires
        st & !PCIE_SLTSTA_USED == 0,
    ensures
        (st | PCIE_SLTSTA_CC) & !PCIE_SLTSTA_USED == 0,
        (st & !(w & PCIE_SLTSTA_RW1C)) & !PCIE_SLTSTA_USED == 0,
        (st | PCIE_SLTSTA_PDS | PCIE_SLTSTA_PDC | PCIE_SLTSTA_ABP) & !PCIE_SLTSTA_USED == 0,
        ((st & !PCIE_SLTSTA_PDS) | PCIE_SLTSTA_PDC | PCIE_SLTSTA_ABP) & !PCIE_SLTSTA_USED == 0,
{
    assert(st & !0x59u16 == 0 ==> {
        &&& (st | 0x10u16) & !0x59u16 == 0
        &&& (st & !(w & 0x011Bu16)) & !0x59u16 == 0
        &&& (st | 0x40u16 | 0x8u16 | 0x1u16) & !0x59u16 == 0
        &&& ((st & !0x40u16) | 0x8u16 | 0x1u16) & !0x59u16 == 0
    }) by (bit_vector);
}

/// Device id of the root port.
pub const PCIE_RP_DID: u16 = 0x3420;

/// Number of double-word registers that the PCI Express capability spans.
pub const PCIE_CAP_REGS: usize = 15;

/// The address of a PCI function: bus, device and function numbers.
#[derive(Clone, Copy, Debug, PartialEq, Eq, Structural)]
pub struct PciAddress {
    pub bus: u8,
    pub dev: u8,
    pub func: u8,
}

/// The host-side identity of a device that is hot-plugged into a port.
#[derive(Clone, Copy, Debug, PartialEq, Eq, Structural)]
pub enum HostHotPlugKey {
    Vfio { host_addr: PciAddress },
}

/// The 16-bit little-endian word that the two bytes of `s` hold.
pub open spec fn spec_word(s: Seq<u8>) -> u16 {
    (s[0] as u16) | ((s[1] as u16) << 8u16)
}

/// Reads a 16-bit little-endian word from `data`, which must be exactly two
/// bytes long.
pub fn get_word(data: &[u8]) -> (r: Option<u16>)
    ensures
        r == (if data@.len() == 2 { Some(spec_word(data@)) } else { None::<u16> }),
        r matches Some(w) ==> w as int == data@[0] as int + 256 * data@[1] as int,
{
    if data.len() != 2 {
        return None;
    }
    let lo = data[0];
    let hi = data[1];
    let w: u16 = (lo as u16) | ((hi as u16) << 8u16);
    assert(w as int == lo as int + 256 * hi as int) by (bit_vector)
        requires
            w == (lo as u16) | ((hi as u16) << 8u16);
    Some(w)
}

/// The double word at the slot control offset: slot control in the low half,
/// slot status in the high half.
pub open spec fn spec_slot_dword(control: u16, status: u16) -> u32 {
    ((status as u32) << 16u32) | (control as u32)
}

/// Whether the command completed interrupt fires for these slot registers.
pub open spec fn spec_cc_interrupt(control: u16, status: u16) -> bool {
    control & PCIE_SLTCTL_CCIE != 0 && status & PCIE_SLTSTA_CC != 0
}

/// Whether the hot-plug interrupt fires for these slot registers.
pub open spec fn spec_hp_interrupt(control: u16, status: u16) -> bool {
    control & PCIE_SLTCTL_HPIE != 0
        && status & control & (PCIE_SLTCTL_ABPE | PCIE_SLTCTL_PDCE) != 0
}

/// The abstract state of a root port.
pub struct RootPortModel {
    /// Index of the first configuration register of the PCI Express capability,
    /// once it is known.
    pub pcie_cap_reg_idx: Option<usize>,
    pub slot_control: u16,
    pub slot_status: u16,
    /// The guest address of the device behind the port, and its host key.
    pub downstream_device: Option<(PciAddress, Option<HostHotPlugKey>)>,
}

impl RootPortModel {
    /// The slot status holds only bits that the port implements.
    pub open spec fn wf(self) -> bool {
        self.slot_status & !PCIE_SLTSTA_USED == 0
    }

    /// The byte offset within the capability of configuration register
    /// `reg_idx`, when the register lies inside the capability.
    pub open spec fn cap_offset(self, reg_idx: int) -> Option<int> {
        match self.pcie_cap_reg_idx {
            Some(i) => if i <= reg_idx < i + PCIE_CAP_REGS {
                Some((reg_idx - i) * 4)
            } else {
                None
            },
            None => None,
        }
    }

    /// The double word read at `offset` in the capability, where `data` holds
    /// what the configuration space itself had there.
    pub open spec fn read_cap(self, offset: int, data: u32) -> u32 {
        if offset == PCIE_SLTCTL_OFFSET {
            spec_slot_dword(self.slot_control, self.slot_status)
        } else {
            data
        }
    }

    /// The state after the guest writes `data` at byte `offset` of the
    /// capability, and whether an interrupt is due.
    pub open spec fn write_cap(self, offset: int, data: Seq<u8>) -> (RootPortModel, bool) {
        if offset == PCIE_SLTCTL_OFFSET && data.len() == 2 {
            let v = spec_word(data);
            if v != self.slot_control {
                let status = self.slot_status | PCIE_SLTSTA_CC;
                (
                    RootPortModel { slot_control: v, slot_status: status, ..self },
                    spec_cc_interrupt(v, status),
                )
            } else {
                (self, false)
            }
        } else if offset == PCIE_SLTSTA_OFFSET && data.len() == 2 {
            (
                RootPortModel {
                    slot_status: self.slot_status & !(spec_word(data) & PCIE_SLTSTA_RW1C),
                    ..self
                },
                false,
            )
        } else {
            (self, false)
        }
    }

    /// What a read of configuration register `reg_idx` returns, where `data`
    /// holds what the configuration space itself had there.
    pub open spec fn read_config(self, reg_idx: int, data: u32) -> u32 {
        match self.cap_offset(reg_idx) {
            Some(off) => self.read_cap(off, data),
            None => data,
        }
    }

    /// The state after the guest writes `data` at byte `offset` of
    /// configuration register `reg_idx`, and whether an interrupt is due.
    pub open spec fn write_config(self, reg_idx: int, offset: int, data: Seq<u8>) -> (RootPortModel, bool) {
        match self.cap_offset(reg_idx) {
            Some(off) => self.write_cap(off + offset, data),
            None => (self, false),
        }
    }

    /// Whether `addr` is the guest address of the device behind the port.
    pub open spec fn is_downstream(self, addr: PciAddress) -> bool {
        self.downstream_device matches Some((g, _)) && g == addr
    }

    /// The state after the device at `addr` is plugged in, and whether an
    /// interrupt is due.
    pub open spec fn hot_plug(self, addr: PciAddress) -> (RootPortModel, bool) {
        if self.is_downstream(addr) {
            let status = self.slot_status | PCIE_SLTSTA_PDS | PCIE_SLTSTA_PDC | PCIE_SLTSTA_ABP;
            (
                RootPortModel { slot_status: status, ..self },
                spec_hp_interrupt(self.slot_control, status),
            )
        } else {
            (self, false)
        }
    }

    /// The state after the device at `addr` is unplugged, and whether an
    /// interrupt is due.
    pub open spec fn hot_unplug(self, addr: PciAddress) -> (RootPortModel, bool) {
        if self.is_downstream(addr) {
            let status = (self.slot_status & !PCIE_SLTSTA_PDS) | PCIE_SLTSTA_PDC | PCIE_SLTSTA_ABP;
            (
                RootPortModel { slot_status: status, ..self },
                spec_hp_interrupt(self.slot_control, status),
            )
        } else {
            (self, false)
        }
    }

    /// The guest address of the device behind the port, if its host key is
    /// `host_key`.
    pub open spec fn hotplug_device(self, host_key: HostHotPlugKey) -> Option<PciAddress> {
        match self.downstream_device {
            Some((g, Some(k))) => if k == host_key { Some(g) } else { None },
            _ => None,
        }
    }
}

/// A PCIe root port with one hot-plug slot.
pub struct PcieRootPort {
    pcie_cap_reg_idx: Option<usize>,
    slot_control: u16,
    slot_status: u16,
    downstream_device: Option<(PciAddress, Option<HostHotPlugKey>)>,
}

impl View for PcieRootPort {
    type V = RootPortModel;

    closed spec fn view(&self) -> RootPortModel {
        RootPortModel {
            pcie_cap_reg_idx: self.pcie_cap_reg_idx,
            slot_control: self.slot_control,
            slot_status: self.slot_status,
            downstream_device: self.downstream_device,
        }
    }
}

impl PcieRootPort {
    /// Constructs a new PCIe root port: indicators off, slot status clear, no
    /// capability placed yet and no device behind it.
    pub fn new() -> (r: PcieRootPort)
        ensures
            r@.pcie_cap_reg_idx == None::<usize>,
            r@.slot_control == PCIE_SLTCTL_PIC_OFF | PCIE_SLTCTL_AIC_OFF,
            r@.slot_control == 0x3C0,
            r@.slot_status == 0,
            r@.downstream_device == None::<(PciAddress, Option<HostHotPlugKey>)>,
            r@.wf(),
    {
        proof {
            assert((PCIE_SLTCTL_PIC_OFF | PCIE_SLTCTL_AIC_OFF) == 0x3C0u16) by (bit_vector);
            assert(0u16 & !PCIE_SLTSTA_USED == 0) by (bit_vector);
        }
        PcieRootPort {
            pcie_cap_reg_idx: None,
            slot_control: PCIE_SLTCTL_PIC_OFF | PCIE_SLTCTL_AIC_OFF,
            slot_status: 0,
            downstream_device: None,
        }
    }

    /// The device id of a root port.
    pub fn get_device_id(&self) -> (r: u16)
        ensures
            r == PCIE_RP_DID,
    {
        PCIE_RP_DID
    }

    /// The name under which the port is logged.
    pub fn debug_label(&self) -> (r: String)
        ensures
            r@ == "PcieRootPort"@,
    {
        "PcieRootPort".to_owned()
    }

    /// The capabilities that the port adds to its configuration space: one PCI
    /// Express capability of a root port with a slot, signalling with message 0.
    pub fn get_caps(&self) -> (r: Vec<PcieCap>)
        ensures
            r@ == seq![PcieCap::spec_new(PcieDevicePortType::RootPort, true, 0)],
    {
        let mut caps: Vec<PcieCap> = Vec::new();
        caps.push(PcieCap::new(PcieDevicePortType::RootPort, true, 0));
        assert(caps@ =~= seq![PcieCap::spec_new(PcieDevicePortType::RootPort, true, 0)]);
        caps
    }

    /// Records where the PCI Express capability was placed; other
    /// capabilities are not the port's concern.
    pub fn set_capability_reg_idx(&mut self, id: PciCapabilityID, reg_idx: usize)
        ensures
            final(self)@ == (if id == PciCapabilityID::PCIExpress {
                RootPortModel { pcie_cap_reg_idx: Some(reg_idx), ..old(self)@ }
            } else {
                old(self)@
            }),
    {
        if let PciCapabilityID::PCIExpress = id {
            self.pcie_cap_reg_idx = Some(reg_idx)
        }
    }

    /// Overlays the port's registers on a read of configuration register
    /// `reg_idx`: inside the PCI Express capability the slot control and
    /// status replace what `data` holds; elsewhere `data` stays as it is.
    pub fn read_config(&self, reg_idx: usize, data: &mut u32)
        ensures
            *final(data) == self@.read_config(reg_idx as int, *old(data)),
    {
        if let Some(pcie_cap_reg_idx) = self.pcie_cap_reg_idx {
            if reg_idx >= pcie_cap_reg_idx && reg_idx - pcie_cap_reg_idx < PCIE_CAP_LEN / 4 {
                let offset = (reg_idx - pcie_cap_reg_idx) * 4;
                self.read_pcie_cap(offset, data);
            }
        }
    }

    /// Applies a guest write of `data` at byte `offset` of configuration
    /// register `reg_idx`; returns whether the port's interrupt is due.
    pub fn write_config(&mut self, reg_idx: usize, offset: u64, data: &[u8]) -> (interrupt: bool)
        ensures
            (final(self)@, interrupt) == old(self)@.write_config(reg_idx as int, offset as int, data@),
            old(self)@.wf() ==> final(self)@.wf(),
            interrupt ==> final(self)@.slot_control & PCIE_SLTCTL_CCIE != 0,
    {
        proof {
            if self@.wf() {
                lemma_status_changes_keep_bits(self.slot_status, spec_word(data@));
            }
        }
        if let Some(pcie_cap_reg_idx) = self.pcie_cap_reg_idx {
            if reg_idx >= pcie_cap_reg_idx && reg_idx - pcie_cap_reg_idx < PCIE_CAP_LEN / 4 {
                // An offset past the end of the capability names no slot register.
                if offset < PCIE_CAP_LEN as u64 {
                    let delta = ((reg_idx - pcie_cap_reg_idx) * 4) + offset as usize;
                    return self.write_pcie_cap(delta, data);
                }
            }
        }
        false
    }

    /// Reports that the device at `addr` was plugged into the slot: when it is
    /// the device behind the port, presence detect state, presence detect
    /// changed and attention button pressed are set. Returns whether the
    /// hot-plug interrupt is due.
    pub fn hot_plug(&mut self, addr: PciAddress) -> (interrupt: bool)
        ensures
            (final(self)@, interrupt) == old(self)@.hot_plug(addr),
            old(self)@.wf() ==> final(self)@.wf(),
            interrupt ==> final(self)@.slot_control & PCIE_SLTCTL_HPIE != 0,
    {
        match self.downstream_device {
            Some((guest_addr, _)) => {
                if guest_addr != addr {
                    return false;
                }
            },
            None => return false,
        }
        proof {
            if self@.wf() {
                lemma_status_changes_keep_bits(self.slot_status, 0);
            }
        }
        self.slot_status = self.slot_status | PCIE_SLTSTA_PDS | PCIE_SLTSTA_PDC | PCIE_SLTSTA_ABP;
        self.trigger_hp_interrupt()
    }

    /// Reports that the device at `addr` was unplugged from the slot: when it
    /// is the device behind the port, presence detect state is cleared and
    /// presence detect changed and attention button pressed are set. Returns
    /// whether the hot-plug interrupt is due.
    pub fn hot_unplug(&mut self, addr: PciAddress) -> (interrupt: bool)
        ensures
            (final(self)@, interrupt) == old(self)@.hot_unplug(addr),
            old(self)@.wf() ==> final(self)@.wf(),
            interrupt ==> final(self)@.slot_control & PCIE_SLTCTL_HPIE != 0,
    {
        match self.downstream_device {
            Some((guest_addr, _)) => {
                if guest_addr != addr {
                    return false;
                }
            },
            None => return false,
        }
        proof {
            if self@.wf() {
                lemma_status_changes_keep_bits(self.slot_status, 0);
            }
        }
        self.slot_status &= !PCIE_SLTSTA_PDS;
        self.slot_status = self.slot_status | PCIE_SLTSTA_PDC | PCIE_SLTSTA_ABP;
        self.trigger_hp_interrupt()
    }

    /// Records the device behind the port: its guest address and host key.
    pub fn add_hotplug_device(&mut self, host_key: HostHotPlugKey, guest_addr: PciAddress)
        ensures
            final(self)@ == (RootPortModel {
                downstream_device: Some((guest_addr, Some(host_key))),
                ..old(self)@
            }),
    {
        self.downstream_device = Some((guest_addr, Some(host_key)))
    }

    /// The guest address of the device behind the port, if `host_key` is its
    /// host key.
    pub fn get_hotplug_device(&self, host_key: HostHotPlugKey) -> (r: Option<PciAddress>)
        ensures
            r == self@.hotplug_device(host_key),
    {
        if let Some((guest_address, Some(host_info))) = &self.downstream_device {
            match host_info {
                HostHotPlugKey::Vfio { host_addr } => {
                    let saved_addr = *host_addr;
                    match host_key {
                        HostHotPlugKey::Vfio { host_addr } => {
                            if host_addr == saved_addr {
                                return Some(*guest_address);
                            }
                        },
                    }
                },
            }
        }
        None
    }

    /// Overlays the slot registers on a read at `offset` of the capability.
    fn read_pcie_cap(&self, offset: usize, data: &mut u32)
        ensures
            *final(data) == self@.read_cap(offset as int, *old(data)),
    {
        if offset == PCIE_SLTCTL_OFFSET {
            *data = ((self.slot_status as u32) << 16u32) | (self.slot_control as u32);
        }
    }

    /// Whether the command completed interrupt is due.
    fn trigger_cc_interrupt(&self) -> (r: bool)
        ensures
            r == spec_cc_interrupt(self.slot_control, self.slot_status),
    {
        (self.slot_control & PCIE_SLTCTL_CCIE) != 0 && (self.slot_status & PCIE_SLTSTA_CC) != 0
    }

    /// Whether the hot-plug interrupt is due.
    fn trigger_hp_interrupt(&self) -> (r: bool)
        ensures
            r == spec_hp_interrupt(self.slot_control, self.slot_status),
    {
        (self.slot_control & PCIE_SLTCTL_HPIE) != 0 && (self.slot_status & self.slot_control & (
        PCIE_SLTCTL_ABPE | PCIE_SLTCTL_PDCE)) != 0
    }

    /// Applies a guest write of `data` at byte `offset` of the capability;
    /// returns whether an interrupt is due.
    fn write_pcie_cap(&mut self, offset: usize, data: &[u8]) -> (interrupt: bool)
        ensures
            (final(self)@, interrupt) == old(self)@.write_cap(offset as int, data@),
    {
        if offset == PCIE_SLTCTL_OFFSET {
            match get_word(data) {
                Some(v) => {
                    let old_control = self.slot_control;
                    self.slot_control = v;
                    if old_control != v {
                        // A changed command completes at once.
                        self.slot_status |= PCIE_SLTSTA_CC;
                        return self.trigger_cc_interrupt();
                    }
                    false
                },
                None => false,
            }
        } else if offset == PCIE_SLTSTA_OFFSET {
            let value = match get_word(data) {
                Some(v) => v,
                None => {
                    return false;
                },
            };
            let ghost s0 = self.slot_status;
            if value & PCIE_SLTSTA_ABP != 0 {
                self.slot_status &= !PCIE_SLTSTA_ABP;
            }
            let ghost s1 = self.slot_status;
            if value & PCIE_SLTSTA_PFD != 0 {
                self.slot_status &= !PCIE_SLTSTA_PFD;
            }
            let ghost s2 = self.slot_status;
            if value & PCIE_SLTSTA_PDC != 0 {
                self.slot_status &= !PCIE_SLTSTA_PDC;
            }
            let ghost s3 = self.slot_status;
            if value & PCIE_SLTSTA_CC != 0 {
                self.slot_status &= !PCIE_SLTSTA_CC;
            }
            let ghost s4 = self.slot_status;
            if value & PCIE_SLTSTA_DLLSC != 0 {
                self.slot_status &= !PCIE_SLTSTA_DLLSC;
            }
            let ghost s5 = self.slot_status;
            assert(s5 == s0 & !(value & 0x011Bu16)) by (bit_vector)
                requires
                    s1 == (if value & 0x0001u16 != 0 { s0 & !0x0001u16 } else { s0 }),
                    s2 == (if value & 0x0002u16 != 0 { s1 & !0x0002u16 } else { s1 }),
                    s3 == (if value & 0x0008u16 != 0 { s2 & !0x0008u16 } else { s2 }),
                    s4 == (if value & 0x0010u16 != 0 { s3 & !0x0010u16 } else { s3 }),
                    s5 == (if value & 0x0100u16 != 0 { s4 & !0x0100u16 } else { s4 }),
            ;
            false
        } else {
            false
        }
    }
}

} // verus!
