//! Properties that hold across the operations of the library.
use vstd::prelude::*;
use crate::bridge::{BridgeModel, PciDeviceError};
use crate::cap::{
    le16, le32, spec_writable_bits, PcieCap, PcieDevicePortType, PCIE_CAP_LEN, PCIE_SLTCTL_AIC_OFF,
    PCIE_SLTCTL_PIC_OFF,
};
use crate::root_port::{
    spec_hp_interrupt, spec_slot_dword, spec_word, HostHotPlugKey, PciAddress, RootPortModel,
    PCIE_SLTCTL_CCIE, PCIE_SLTCTL_HPIE, PCIE_SLTSTA_ABP, PCIE_SLTSTA_CC, PCIE_SLTSTA_PDC,
    PCIE_SLTSTA_PDS, PCIE_SLTSTA_RW1C, PCIE_CAP_REGS, lemma_status_changes_keep_bits,
};

verus! {

/// The double word at the slot control offset holds slot control in its low
/// half and slot status in its high half.
pub proof fn law_slot_dword_fields(control: u16, status: u16)
    ensures
        spec_slot_dword(control, status) & 0xffff == control as u32,
        spec_slot_dword(control, status) >> 16u32 == status as u32,
{
    assert(((((status as u32) << 16u32) | (control as u32)) & 0xffff == control as u32) && (((
    (status as u32) << 16u32) | (control as u32)) >> 16u32 == status as u32)) by (bit_vector);
}

/// A guest that writes a word to the slot control register and reads the
/// register back reads the word it wrote, beside the current slot status.
pub proof fn law_slot_control_read_after_write(m: RootPortModel, i: usize, data: Seq<u8>, fill: u32)
    requires
        m.pcie_cap_reg_idx == Some(i),
        data.len() == 2,
    ensures
        ({
            let after = m.write_config(i + 6, 0, data).0;
            &&& after.slot_control == spec_word(data)
            &&& after.read_config(i + 6, fill) == spec_slot_dword(spec_word(data), after.slot_status)
            &&& after.read_config(i + 6, fill) & 0xffff == spec_word(data) as u32
            &&& after.read_config(i + 6, fill) >> 16u32 == after.slot_status as u32
        }),
{
    let after = m.write_config(i + 6, 0, data).0;
    law_slot_dword_fields(after.slot_control, after.slot_status);
}

/// Repeating a guest write to configuration space changes nothing and raises
/// no interrupt: rewriting slot control with the value it now holds is no
/// command, and clearing slot status bits again clears nothing new.
pub proof fn law_write_idempotent(m: RootPortModel, reg_idx: int, offset: int, data: Seq<u8>)
    ensures
        ({
            let s1 = m.write_config(reg_idx, offset, data).0;
            s1.write_config(reg_idx, offset, data) == (s1, false)
        }),
{
    let s1 = m.write_config(reg_idx, offset, data).0;
    assert(s1.pcie_cap_reg_idx == m.pcie_cap_reg_idx);
    let st = m.slot_status;
    let w = spec_word(data);
    assert((st & !(w & 0x011Bu16)) & !(w & 0x011Bu16) == st & !(w & 0x011Bu16)) by (bit_vector);
    match m.cap_offset(reg_idx) {
        Some(off) => {
            assert(s1 == m.write_cap(off + offset, data).0);
            assert(s1.cap_offset(reg_idx) == Some(off));
        },
        None => {},
    }
}

/// Slot status bits are cleared by writing ones to them: a write to the slot
/// status register clears exactly the written bits that are write-one-to-clear,
/// sets nothing, never touches presence detect state or slot control, and
/// raises no interrupt. Writing zero changes nothing.
pub proof fn law_slot_status_write_one_to_clear(m: RootPortModel, i: usize, data: Seq<u8>)
    requires
        m.pcie_cap_reg_idx == Some(i),
        data.len() == 2,
    ensures
        ({
            let (after, interrupt) = m.write_config(i + 6, 2, data);
            let w = spec_word(data);
            &&& after.slot_status == m.slot_status & !(w & PCIE_SLTSTA_RW1C)
            &&& after.slot_status & !m.slot_status == 0
            &&& after.slot_status & PCIE_SLTSTA_PDS == m.slot_status & PCIE_SLTSTA_PDS
            &&& after.slot_control == m.slot_control
            &&& after.pcie_cap_reg_idx == m.pcie_cap_reg_idx
            &&& after.downstream_device == m.downstream_device
            &&& !interrupt
            &&& (w == 0 ==> after == m)
        }),
{
    let s = m.slot_status;
    let w = spec_word(data);
    assert((s & !(w & 0x011Bu16)) & !s == 0 && (s & !(w & 0x011Bu16)) & 0x40u16 == s & 0x40u16
        && (w == 0 ==> s & !(w & 0x011Bu16) == s)) by (bit_vector);
}

/// A write of a new value to slot control completes at once: the command
/// completed bit is set, and the interrupt fires exactly when command
/// completed interrupts are enabled in the new value. Rewriting the value the
/// register holds changes nothing and raises no interrupt.
pub proof fn law_slot_control_command_completed(m: RootPortModel, i: usize, data: Seq<u8>)
    requires
        m.pcie_cap_reg_idx == Some(i),
        data.len() == 2,
    ensures
        ({
            let (after, interrupt) = m.write_config(i + 6, 0, data);
            let v = spec_word(data);
            &&& v != m.slot_control ==> {
                &&& after.slot_control == v
                &&& after.slot_status == m.slot_status | PCIE_SLTSTA_CC
                &&& after.slot_status & PCIE_SLTSTA_CC != 0
                &&& interrupt == (v & PCIE_SLTCTL_CCIE != 0)
            }
            &&& v == m.slot_control ==> after == m && !interrupt
        }),
{
    let s = m.slot_status;
    assert((s | 0x10u16) & 0x10u16 != 0) by (bit_vector);
}

/// Plugging in the device behind the port sets presence detect state;
/// unplugging it clears it; both set presence detect changed and attention
/// button pressed and leave slot control alone. The hot-plug interrupt fires
/// only when it is enabled together with the attention button or the presence
/// detect changed interrupt.
pub proof fn law_hot_plug_presence(m: RootPortModel, addr: PciAddress)
    requires
        m.is_downstream(addr),
    ensures
        ({
            let (plugged, plug_irq) = m.hot_plug(addr);
            &&& plugged.slot_status & PCIE_SLTSTA_PDS != 0
            &&& plugged.slot_status & PCIE_SLTSTA_PDC != 0
            &&& plugged.slot_status & PCIE_SLTSTA_ABP != 0
            &&& plugged.slot_control == m.slot_control
            &&& plug_irq == spec_hp_interrupt(m.slot_control, plugged.slot_status)
            &&& plug_irq == (m.slot_control & PCIE_SLTCTL_HPIE != 0 && m.slot_control & 0x9u16 != 0)
        }),
        ({
            let (unplugged, unplug_irq) = m.hot_unplug(addr);
            &&& unplugged.slot_status & PCIE_SLTSTA_PDS == 0
            &&& unplugged.slot_status & PCIE_SLTSTA_PDC != 0
            &&& unplugged.slot_status & PCIE_SLTSTA_ABP != 0
            &&& unplugged.slot_control == m.slot_control
            &&& unplug_irq == (m.slot_control & PCIE_SLTCTL_HPIE != 0 && m.slot_control & 0x9u16 != 0)
        }),
        m.hot_plug(addr).0.hot_unplug(addr).0.slot_status & PCIE_SLTSTA_PDS == 0,
        m.hot_unplug(addr).0.hot_plug(addr).0.slot_status & PCIE_SLTSTA_PDS != 0,
{
    let s = m.slot_status;
    let c = m.slot_control;
    let p = s | 0x40u16 | 0x8u16 | 0x1u16;
    let u = (s & !0x40u16) | 0x8u16 | 0x1u16;
    assert(p & 0x40u16 != 0 && p & 0x8u16 != 0 && p & 0x1u16 != 0) by (bit_vector)
        requires p == s | 0x40u16 | 0x8u16 | 0x1u16;
    assert(u & 0x40u16 == 0 && u & 0x8u16 != 0 && u & 0x1u16 != 0) by (bit_vector)
        requires u == (s & !0x40u16) | 0x8u16 | 0x1u16;
    assert((p & c & (0x1u16 | 0x8u16) != 0) == (c & 0x9u16 != 0)) by (bit_vector)
        requires p == s | 0x40u16 | 0x8u16 | 0x1u16;
    assert((u & c & (0x1u16 | 0x8u16) != 0) == (c & 0x9u16 != 0)) by (bit_vector)
        requires u == (s & !0x40u16) | 0x8u16 | 0x1u16;
    let pu = (p & !0x40u16) | 0x8u16 | 0x1u16;
    assert(pu & 0x40u16 == 0) by (bit_vector)
        requires pu == (p & !0x40u16) | 0x8u16 | 0x1u16;
    let up = u | 0x40u16 | 0x8u16 | 0x1u16;
    assert(up & 0x40u16 != 0) by (bit_vector)
        requires up == u | 0x40u16 | 0x8u16 | 0x1u16;
}

/// Hot-plug events for any device other than the one behind the port change
/// nothing and raise no interrupt.
pub proof fn law_hot_plug_other_device(m: RootPortModel, addr: PciAddress)
    requires
        !m.is_downstream(addr),
    ensures
        m.hot_plug(addr) == (m, false),
        m.hot_unplug(addr) == (m, false),
{
}

/// Once a device is recorded behind the port, its host key finds its guest
/// address, and any other key finds nothing.
pub proof fn law_hotplug_device_lookup(m: RootPortModel, key: HostHotPlugKey, guest: PciAddress, other: HostHotPlugKey)
    requires
        other != key,
    ensures
        (RootPortModel { downstream_device: Some((guest, Some(key))), ..m }).hotplug_device(key) == Some(guest),
        (RootPortModel { downstream_device: Some((guest, Some(key))), ..m }).hotplug_device(other) == None::<PciAddress>,
{
}

/// Accesses to configuration registers outside the PCI Express capability do
/// not reach the port: reads keep their data, writes change nothing.
pub proof fn law_outside_capability(m: RootPortModel, reg_idx: int, offset: int, data: Seq<u8>, fill: u32)
    requires
        m.cap_offset(reg_idx) is None,
    ensures
        m.read_config(reg_idx, fill) == fill,
        m.write_config(reg_idx, offset, data) == (m, false),
{
}

/// The slot status never holds bits other than those the port implements,
/// whatever the guest writes and whatever is plugged or unplugged.
pub proof fn law_slot_status_bits(m: RootPortModel, reg_idx: int, offset: int, data: Seq<u8>, addr: PciAddress)
    requires
        m.wf(),
    ensures
        m.write_config(reg_idx, offset, data).0.wf(),
        m.hot_plug(addr).0.wf(),
        m.hot_unplug(addr).0.wf(),
{
    lemma_status_changes_keep_bits(m.slot_status, spec_word(data));
}

/// The byte image of the capability puts the capabilities register at offset
/// 2 and the slot control and slot status registers at the offsets where the
/// root port serves them, each little-endian.
pub proof fn law_cap_layout(c: PcieCap)
    ensures
        c.spec_bytes().len() == PCIE_CAP_LEN,
        c.spec_bytes()[2] as int + 256 * c.spec_bytes()[3] as int == c.pcie_cap as int,
        c.spec_bytes()[0x18] as int + 256 * c.spec_bytes()[0x19] as int == c.slot_control as int,
        c.spec_bytes()[0x1A] as int + 256 * c.spec_bytes()[0x1B] as int == c.slot_status as int,
        spec_writable_bits().len() * 4 == PCIE_CAP_LEN,
        PCIE_CAP_REGS * 4 == PCIE_CAP_LEN,
        spec_word(c.spec_bytes().subrange(0x18, 0x1A)) == c.slot_control,
        spec_word(c.spec_bytes().subrange(0x1A, 0x1C)) == c.slot_status,
{
    let b = c.spec_bytes();
    assert(b.subrange(2, 4) =~= le16(c.pcie_cap));
    assert(b.subrange(0x18, 0x1A) =~= le16(c.slot_control));
    assert(b.subrange(0x1A, 0x1C) =~= le16(c.slot_status));
    lemma_le16_value(c.pcie_cap);
    lemma_le16_value(c.slot_control);
    lemma_le16_value(c.slot_status);
    lemma_word_of_le16(c.slot_control);
    lemma_word_of_le16(c.slot_status);
}

/// Reading a word from the two bytes of `le16(x)` gives `x` back.
pub proof fn lemma_word_of_le16(x: u16)
    ensures
        spec_word(le16(x)) == x,
{
    assert((((x & 0xff) as u8) as u16) | ((((x >> 8u16) as u8) as u16) << 8u16) == x) by (bit_vector);
}

/// The capability that a root port advertises starts with the slot control
/// value that the port itself starts with and serves.
pub proof fn law_advertised_slot_control()
    ensures
        PcieCap::spec_new(PcieDevicePortType::RootPort, true, 0).slot_control
            == PCIE_SLTCTL_PIC_OFF | PCIE_SLTCTL_AIC_OFF,
        PcieCap::spec_new(PcieDevicePortType::RootPort, true, 0).slot_status == 0,
{
}

/// The two bytes of `le16(x)` give `x` back.
pub proof fn lemma_le16_value(x: u16)
    ensures
        le16(x)[0] as int + 256 * le16(x)[1] as int == x as int,
{
    assert(((x & 0xff) as u8) as int + 256 * ((x >> 8u16) as u8) as int == x as int) by (bit_vector);
}

/// A bridge's bus address is settled by the first successful allocation:
/// later allocator results are ignored and the same address is answered.
pub proof fn law_address_settled_once(m: BridgeModel, first: Option<PciAddress>, later: Option<PciAddress>)
    requires
        m.after_allocate(first).pci_address is Some,
    ensures
        m.after_allocate(first).after_allocate(later) == m.after_allocate(first),
        m.after_allocate(first).after_allocate(later).address_result() == m.after_allocate(first).address_result(),
        m.after_allocate(first).address_result() is Ok,
{
}

/// A bridge left without an address answers an address request with the
/// allocation failure.
pub proof fn law_address_failure(m: BridgeModel)
    requires
        m.after_allocate(None).pci_address is None,
    ensures
        m.after_allocate(None).address_result() == Err::<PciAddress, PciDeviceError>(PciDeviceError::PciAllocationFailed),
{
}

/// The two bytes at offset `o` of `b`, read as a little-endian number.
pub open spec fn word_at(b: Seq<u8>, o: int) -> int {
    b[o] as int + 256 * b[o + 1] as int
}

/// The four bytes at offset `o` of `b`, read as a little-endian number.
pub open spec fn dword_at(b: Seq<u8>, o: int) -> int {
    b[o] as int + 256 * b[o + 1] as int + 65536 * b[o + 2] as int + 16777216 * b[o + 3] as int
}

/// Once the PCI Express capability is placed at register `i`, register
/// `i + k` for `k` below 15 holds bytes `4k` to `4k + 3` of the capability,
/// and no other register lies inside it.
pub proof fn law_capability_registers(m: RootPortModel, i: usize, reg_idx: int)
    requires
        m.pcie_cap_reg_idx == Some(i),
    ensures
        i <= reg_idx < i + 15 ==> m.cap_offset(reg_idx) == Some(4 * (reg_idx - i)),
        !(i <= reg_idx < i + 15) ==> m.cap_offset(reg_idx) is None,
{
}

/// Before the capability is placed, no register lies inside it.
pub proof fn law_capability_unplaced(m: RootPortModel, reg_idx: int)
    requires
        m.pcie_cap_reg_idx is None,
    ensures
        m.cap_offset(reg_idx) is None,
{
}

/// Only the slot register, at byte 0x18 of the capability, is overlaid on a
/// read: it holds slot control in its low half and slot status in its high
/// half; every other register reads what configuration space holds.
pub proof fn law_only_slot_register_read(m: RootPortModel, reg_idx: int, off: int, fill: u32)
    requires
        m.cap_offset(reg_idx) == Some(off),
    ensures
        off != 0x18 ==> m.read_config(reg_idx, fill) == fill,
        off == 0x18 ==> m.read_config(reg_idx, fill) & 0xffff == m.slot_control as u32,
        off == 0x18 ==> m.read_config(reg_idx, fill) >> 16u32 == m.slot_status as u32,
        off == 0x18 ==> m.read_config(reg_idx, fill) as int == m.slot_status as int * 65536
            + m.slot_control as int,
{
    let c = m.slot_control;
    let st = m.slot_status;
    law_slot_dword_fields(c, st);
    let d = ((st as u32) << 16u32) | (c as u32);
    assert(d as int == st as int * 65536 + c as int) by (bit_vector)
        requires d == ((st as u32) << 16u32) | (c as u32);
}

/// Only the slot control (byte 0x18) and slot status (byte 0x1A) registers
/// take writes: a write at any other byte of the capability, or of other than
/// two bytes, changes nothing and raises no interrupt.
pub proof fn law_only_slot_registers_written(m: RootPortModel, reg_idx: int, off: int, offset: int, data: Seq<u8>)
    requires
        m.cap_offset(reg_idx) == Some(off),
        (off + offset != 0x18 && off + offset != 0x1A) || data.len() != 2,
    ensures
        m.write_config(reg_idx, offset, data) == (m, false),
{
}

/// The word that two bytes hold, least significant first.
pub proof fn lemma_word_value(data: Seq<u8>)
    requires
        data.len() == 2,
    ensures
        spec_word(data) as int == data[0] as int + 256 * data[1] as int,
{
    let lo = data[0];
    let hi = data[1];
    assert(((lo as u16) | ((hi as u16) << 8u16)) as int == lo as int + 256 * hi as int) by (bit_vector);
}

/// A two-byte write at byte 0x18 of the capability sets slot control to the
/// word written. When the word differs from the old slot control, command
/// completed is set, the rest of slot status is kept, and the interrupt is due
/// exactly when the new slot control enables command completed interrupts;
/// otherwise nothing changes and no interrupt is due. The port's other state
/// is untouched.
pub proof fn law_slot_control_write(m: RootPortModel, reg_idx: int, off: int, offset: int, data: Seq<u8>)
    requires
        m.cap_offset(reg_idx) == Some(off),
        off + offset == 0x18,
        data.len() == 2,
    ensures
        ({
            let (after, interrupt) = m.write_config(reg_idx, offset, data);
            &&& after.slot_control as int == data[0] as int + 256 * data[1] as int
            &&& after.pcie_cap_reg_idx == m.pcie_cap_reg_idx
            &&& after.downstream_device == m.downstream_device
            &&& after.slot_control != m.slot_control ==> {
                &&& after.slot_status & 0x10 != 0
                &&& after.slot_status & !0x10u16 == m.slot_status & !0x10u16
                &&& interrupt == (after.slot_control & 0x10 != 0)
            }
            &&& after.slot_control == m.slot_control ==> after == m && !interrupt
        }),
{
    lemma_word_value(data);
    let st = m.slot_status;
    assert((st | 0x10u16) & 0x10u16 != 0 && (st | 0x10u16) & !0x10u16 == st & !0x10u16) by (bit_vector);
}

/// A two-byte write of word `w` at byte 0x1A of the capability clears the slot
/// status bits that are set in `w` among attention button pressed, power fault
/// detected, presence detect changed, command completed and data link layer
/// state changed, keeps every other bit, and changes nothing else; no
/// interrupt is due.
pub proof fn law_slot_status_write(m: RootPortModel, reg_idx: int, off: int, offset: int, data: Seq<u8>, w: u16)
    requires
        m.cap_offset(reg_idx) == Some(off),
        off + offset == 0x1A,
        data.len() == 2,
        w as int == data[0] as int + 256 * data[1] as int,
    ensures
        ({
            let (after, interrupt) = m.write_config(reg_idx, offset, data);
            &&& after.slot_status == m.slot_status & !(w & 0x011Bu16)
            &&& after.slot_control == m.slot_control
            &&& after.pcie_cap_reg_idx == m.pcie_cap_reg_idx
            &&& after.downstream_device == m.downstream_device
            &&& !interrupt
        }),
{
    lemma_word_value(data);
}

/// The four bytes of `le32(x)` give `x` back.
pub proof fn lemma_le32_value(x: u32)
    ensures
        le32(x)[0] as int + 256 * le32(x)[1] as int + 65536 * le32(x)[2] as int
            + 16777216 * le32(x)[3] as int == x as int,
{
    assert(((x & 0xff) as u8) as int + 256 * (((x >> 8u32) & 0xff) as u8) as int + 65536 * (((x
        >> 16u32) & 0xff) as u8) as int + 16777216 * ((x >> 24u32) as u8) as int == x as int)
        by (bit_vector);
}

/// Every field of the capability lies in its byte image at its offset in the
/// structure's declared order with no padding, little-endian.
/// Every field of the capability lies in its byte image at its offset in the
/// structure's declared order with no padding, little-endian.
pub proof fn law_cap_field_offsets(c: PcieCap)
    ensures
        c.spec_bytes().len() == 60,
        c.spec_bytes()[0] == c.cap_vndr,
        c.spec_bytes()[1] == c.cap_next,
        word_at(c.spec_bytes(), 2) == c.pcie_cap as int,
        dword_at(c.spec_bytes(), 4) == c.dev_cap as int,
        word_at(c.spec_bytes(), 8) == c.dev_control as int,
        word_at(c.spec_bytes(), 10) == c.dev_status as int,
        dword_at(c.spec_bytes(), 12) == c.link_cap as int,
        word_at(c.spec_bytes(), 16) == c.link_control as int,
        word_at(c.spec_bytes(), 18) == c.link_status as int,
        dword_at(c.spec_bytes(), 20) == c.slot_cap as int,
        word_at(c.spec_bytes(), 24) == c.slot_control as int,
        word_at(c.spec_bytes(), 26) == c.slot_status as int,
        word_at(c.spec_bytes(), 28) == c.root_control as int,
        word_at(c.spec_bytes(), 30) == c.root_cap as int,
        dword_at(c.spec_bytes(), 32) == c.root_status as int,
        dword_at(c.spec_bytes(), 36) == c.dev_cap_2 as int,
        word_at(c.spec_bytes(), 40) == c.dev_control_2 as int,
        word_at(c.spec_bytes(), 42) == c.dev_status_2 as int,
        dword_at(c.spec_bytes(), 44) == c.link_cap_2 as int,
        word_at(c.spec_bytes(), 48) == c.link_control_2 as int,
        word_at(c.spec_bytes(), 50) == c.link_status_2 as int,
        dword_at(c.spec_bytes(), 52) == c.slot_cap_2 as int,
        word_at(c.spec_bytes(), 56) == c.slot_control_2 as int,
        word_at(c.spec_bytes(), 58) == c.slot_status_2 as int,
{
    lemma_cap_field_offsets_1(c);
    lemma_cap_field_offsets_2(c);
    lemma_cap_field_offsets_3(c);
}

/// The length of the byte image and its fields up to link status.
#[verifier::rlimit(60)]
proof fn lemma_cap_field_offsets_1(c: PcieCap)
    ensures
        c.spec_bytes().len() == 60,
        c.spec_bytes()[0] == c.cap_vndr,
        c.spec_bytes()[1] == c.cap_next,
        word_at(c.spec_bytes(), 2) == c.pcie_cap as int,
        dword_at(c.spec_bytes(), 4) == c.dev_cap as int,
        word_at(c.spec_bytes(), 8) == c.dev_control as int,
        word_at(c.spec_bytes(), 10) == c.dev_status as int,
        dword_at(c.spec_bytes(), 12) == c.link_cap as int,
        word_at(c.spec_bytes(), 16) == c.link_control as int,
        word_at(c.spec_bytes(), 18) == c.link_status as int,
{
    let b = c.spec_bytes();
    assert(b.subrange(0, 2) =~= seq![c.cap_vndr, c.cap_next]);
    assert(b[0] == b.subrange(0, 2)[0]);
    assert(b[1] == b.subrange(0, 2)[1]);
    assert(b.subrange(2, 4) =~= le16(c.pcie_cap));
    lemma_word_field(b, 2, c.pcie_cap);
    assert(b.subrange(4, 8) =~= le32(c.dev_cap));
    lemma_dword_field(b, 4, c.dev_cap);
    assert(b.subrange(8, 10) =~= le16(c.dev_control));
    lemma_word_field(b, 8, c.dev_control);
    assert(b.subrange(10, 12) =~= le16(c.dev_status));
    lemma_word_field(b, 10, c.dev_status);
    assert(b.subrange(12, 16) =~= le32(c.link_cap));
    lemma_dword_field(b, 12, c.link_cap);
    assert(b.subrange(16, 18) =~= le16(c.link_control));
    lemma_word_field(b, 16, c.link_control);
    assert(b.subrange(18, 20) =~= le16(c.link_status));
    lemma_word_field(b, 18, c.link_status);
}

/// The fields of the byte image from slot capabilities to device control 2.
#[verifier::rlimit(60)]
proof fn lemma_cap_field_offsets_2(c: PcieCap)
    ensures
        dword_at(c.spec_bytes(), 20) == c.slot_cap as int,
        word_at(c.spec_bytes(), 24) == c.slot_control as int,
        word_at(c.spec_bytes(), 26) == c.slot_status as int,
        word_at(c.spec_bytes(), 28) == c.root_control as int,
        word_at(c.spec_bytes(), 30) == c.root_cap as int,
        dword_at(c.spec_bytes(), 32) == c.root_status as int,
        dword_at(c.spec_bytes(), 36) == c.dev_cap_2 as int,
        word_at(c.spec_bytes(), 40) == c.dev_control_2 as int,
{
    let b = c.spec_bytes();
    assert(b.subrange(20, 24) =~= le32(c.slot_cap));
    lemma_dword_field(b, 20, c.slot_cap);
    assert(b.subrange(24, 26) =~= le16(c.slot_control));
    lemma_word_field(b, 24, c.slot_control);
    assert(b.subrange(26, 28) =~= le16(c.slot_status));
    lemma_word_field(b, 26, c.slot_status);
    assert(b.subrange(28, 30) =~= le16(c.root_control));
    lemma_word_field(b, 28, c.root_control);
    assert(b.subrange(30, 32) =~= le16(c.root_cap));
    lemma_word_field(b, 30, c.root_cap);
    assert(b.subrange(32, 36) =~= le32(c.root_status));
    lemma_dword_field(b, 32, c.root_status);
    assert(b.subrange(36, 40) =~= le32(c.dev_cap_2));
    lemma_dword_field(b, 36, c.dev_cap_2);
    assert(b.subrange(40, 42) =~= le16(c.dev_control_2));
    lemma_word_field(b, 40, c.dev_control_2);
}

/// The fields of the byte image from device status 2 to the end.
#[verifier::rlimit(60)]
proof fn lemma_cap_field_offsets_3(c: PcieCap)
    ensures
        word_at(c.spec_bytes(), 42) == c.dev_status_2 as int,
        dword_at(c.spec_bytes(), 44) == c.link_cap_2 as int,
        word_at(c.spec_bytes(), 48) == c.link_control_2 as int,
        word_at(c.spec_bytes(), 50) == c.link_status_2 as int,
        dword_at(c.spec_bytes(), 52) == c.slot_cap_2 as int,
        word_at(c.spec_bytes(), 56) == c.slot_control_2 as int,
        word_at(c.spec_bytes(), 58) == c.slot_status_2 as int,
{
    let b = c.spec_bytes();
    assert(b.subrange(42, 44) =~= le16(c.dev_status_2));
    lemma_word_field(b, 42, c.dev_status_2);
    assert(b.subrange(44, 48) =~= le32(c.link_cap_2));
    lemma_dword_field(b, 44, c.link_cap_2);
    assert(b.subrange(48, 50) =~= le16(c.link_control_2));
    lemma_word_field(b, 48, c.link_control_2);
    assert(b.subrange(50, 52) =~= le16(c.link_status_2));
    lemma_word_field(b, 50, c.link_status_2);
    assert(b.subrange(52, 56) =~= le32(c.slot_cap_2));
    lemma_dword_field(b, 52, c.slot_cap_2);
    assert(b.subrange(56, 58) =~= le16(c.slot_control_2));
    lemma_word_field(b, 56, c.slot_control_2);
    assert(b.subrange(58, 60) =~= le16(c.slot_status_2));
    lemma_word_field(b, 58, c.slot_status_2);
}

/// Where the bytes at `o` are those of `le16(x)`, they read as `x`.
proof fn lemma_word_field(b: Seq<u8>, o: int, x: u16)
    requires
        0 <= o,
        o + 2 <= b.len(),
        b.subrange(o, o + 2) == le16(x),
    ensures
        word_at(b, o) == x as int,
{
    lemma_le16_value(x);
    assert(b[o] == b.subrange(o, o + 2)[0]);
    assert(b[o + 1] == b.subrange(o, o + 2)[1]);
}

/// Where the bytes at `o` are those of `le32(x)`, they read as `x`.
proof fn lemma_dword_field(b: Seq<u8>, o: int, x: u32)
    requires
        0 <= o,
        o + 4 <= b.len(),
        b.subrange(o, o + 4) == le32(x),
    ensures
        dword_at(b, o) == x as int,
{
    lemma_le32_value(x);
    assert(b[o] == b.subrange(o, o + 4)[0]);
    assert(b[o + 1] == b.subrange(o, o + 4)[1]);
    assert(b[o + 2] == b.subrange(o, o + 4)[2]);
    assert(b[o + 3] == b.subrange(o, o + 4)[3]);
}

/// A bridge without an address records exactly the address that the
/// allocator hands out and answers with it; a bridge with an address keeps it
/// whatever the allocator hands out.
pub proof fn law_allocated_address_recorded(m: BridgeModel, a: PciAddress, other: Option<PciAddress>)
    ensures
        m.pci_address is None ==> m.after_allocate(Some(a)).pci_address == Some(a),
        m.pci_address is None ==> m.after_allocate(Some(a)).address_result() == Ok::<PciAddress, PciDeviceError>(a),
        m.pci_address == Some(a) ==> m.after_allocate(other).pci_address == Some(a),
        m.pci_address == Some(a) ==> m.after_allocate(other).address_result() == Ok::<PciAddress, PciDeviceError>(a),
        m.after_allocate(other).setting_bar == m.setting_bar,
        m.after_allocate(other).msix_cap_reg_idx == m.msix_cap_reg_idx,
{
}

} // verus!
