//! MSI and MSI-X: the message address and data a device writes to raise
//! an interrupt, and the values written to its capability registers. The
//! PCI configuration accesses themselves are the caller's.

use vstd::prelude::*;

verus! {

/// The MSI message address base: the local APIC's region.
pub const MSI_ADDRESS_BASE_CHIRHO: u32 = 0xFEE0_0000;
/// Offset of Message Control in the MSI capability.
pub const MSI_CAP_CONTROL_CHIRHO: u8 = 0x02;
/// Offset of the low message address.
pub const MSI_CAP_ADDR_LO_CHIRHO: u8 = 0x04;
/// Offset of the high message address (64-bit capable devices).
pub const MSI_CAP_ADDR_HI_CHIRHO: u8 = 0x08;
/// Offset of Message Data with a 32-bit address.
pub const MSI_CAP_DATA_32_CHIRHO: u8 = 0x08;
/// Offset of Message Data with a 64-bit address.
pub const MSI_CAP_DATA_64_CHIRHO: u8 = 0x0C;
/// Message Control: MSI enable.
pub const MSI_CTRL_ENABLE_CHIRHO: u16 = 1;
/// Message Control: Multiple Message Capable (bits 3:1).
pub const MSI_CTRL_MMC_MASK_CHIRHO: u16 = 0x0E;
/// Message Control: Multiple Message Enable (bits 6:4).
pub const MSI_CTRL_MME_MASK_CHIRHO: u16 = 0x70;
/// Message Control: 64-bit address capable.
pub const MSI_CTRL_64BIT_CHIRHO: u16 = 0x80;
/// Message Control: per-vector masking capable.
pub const MSI_CTRL_PVM_CHIRHO: u16 = 0x100;
/// MSI-X Message Control: enable.
pub const MSIX_CTRL_ENABLE_CHIRHO: u16 = 0x8000;
/// MSI-X Message Control: function mask.
pub const MSIX_CTRL_FUNC_MASK_CHIRHO: u16 = 0x4000;
/// MSI-X Message Control: table size (bits 10:0).
pub const MSIX_CTRL_TABLE_SIZE_MASK_CHIRHO: u16 = 0x07FF;

/// One 16-byte entry of an MSI-X table.
#[derive(Debug, Clone, Copy, Default)]
pub struct MsixTableEntryChirho {
    pub msg_addr_lo_chirho: u32,
    pub msg_addr_hi_chirho: u32,
    pub msg_data_chirho: u32,
    /// Bit 0 masks the vector.
    pub vector_control_chirho: u32,
}

/// The MSI set-up of a PCI device.
#[derive(Debug, Clone, Copy)]
pub struct MsiConfigChirho {
    /// Bus, device, function.
    pub pci_bdf_chirho: (u8, u8, u8),
    /// Offset of the MSI capability in configuration space.
    pub cap_offset_chirho: u8,
    pub is_64bit_chirho: bool,
    /// Vectors the device can use: 1, 2, 4, 8, 16 or 32.
    pub vectors_capable_chirho: u8,
    pub vectors_allocated_chirho: u8,
    pub base_vector_chirho: u8,
    pub target_apic_id_chirho: u8,
}

/// The MSI-X set-up of a PCI device.
#[derive(Debug, Clone, Copy)]
pub struct MsixConfigChirho {
    pub pci_bdf_chirho: (u8, u8, u8),
    pub cap_offset_chirho: u8,
    pub table_size_chirho: u16,
    pub table_bir_chirho: u8,
    pub table_offset_chirho: u32,
    pub pba_bir_chirho: u8,
    pub pba_offset_chirho: u32,
}

/// The message address that targets local APIC `apic_id`.
pub fn msi_address_chirho(apic_id_chirho: u8) -> (r: u32)
    ensures
        r == MSI_ADDRESS_BASE_CHIRHO | ((apic_id_chirho as u32) << 12u32),
{
    MSI_ADDRESS_BASE_CHIRHO | ((apic_id_chirho as u32) << 12u32)
}

/// The message data for interrupt vector `vector`: edge-triggered, fixed
/// delivery, so just the vector.
pub fn msi_data_chirho(vector_chirho: u8) -> (r: u32)
    ensures
        r == vector_chirho as u32,
{
    vector_chirho as u32
}

/// Message Control with MSI enabled for one vector: the Multiple Message
/// Enable field cleared and the enable bit set.
pub fn msi_enable_control_chirho(ctrl_chirho: u16) -> (r: u16)
    ensures
        r == (ctrl_chirho & !MSI_CTRL_MME_MASK_CHIRHO) | MSI_CTRL_ENABLE_CHIRHO,
{
    (ctrl_chirho & !MSI_CTRL_MME_MASK_CHIRHO) | MSI_CTRL_ENABLE_CHIRHO
}

/// Where the message data goes: after a 64-bit address or a 32-bit one.
pub fn msi_data_offset_chirho(is_64bit_chirho: bool) -> (r: u8)
    ensures
        r == (if is_64bit_chirho { MSI_CAP_DATA_64_CHIRHO } else { MSI_CAP_DATA_32_CHIRHO }),
{
    if is_64bit_chirho { MSI_CAP_DATA_64_CHIRHO } else { MSI_CAP_DATA_32_CHIRHO }
}

/// The aligned configuration dword that holds Message Control for a
/// capability at `cap`, and its new value: `full` with the control's 16
/// bits replaced by `new_ctrl`.
pub fn msi_control_dword_chirho(cap_chirho: u8, full_chirho: u32, new_ctrl_chirho: u16) -> (r: (u8, u32))
    requires
        cap_chirho <= 253,
    ensures
        ({
            let at = (cap_chirho + MSI_CAP_CONTROL_CHIRHO) as u8;
            let shift = ((at & 3u8) as u32) * 8;
            let mask = 0xFFFFu32 << shift;
            &&& r.0 == at & 0xFC
            &&& r.1 == (full_chirho & !mask) | ((new_ctrl_chirho as u32) << shift)
        }),
{
    let at_chirho: u8 = cap_chirho + MSI_CAP_CONTROL_CHIRHO;
    let low_chirho: u8 = at_chirho & 3u8;
    assert(at_chirho & 3u8 <= 3) by (bit_vector);
    let shift_chirho: u32 = (low_chirho as u32) * 8;
    let mask_chirho: u32 = 0xFFFFu32 << shift_chirho;
    (at_chirho & 0xFC, (full_chirho & !mask_chirho) | ((new_ctrl_chirho as u32) << shift_chirho))
}

/// The MSI set-up read from the Message Control `ctrl` of the capability
/// at `cap` of device `bdf`: 64-bit capability from bit 7, and 2 to the
/// Multiple Message Capable field vectors; nothing allocated yet.
pub fn msi_config_from_control_chirho(bdf_chirho: (u8, u8, u8), cap_chirho: u8, ctrl_chirho: u16) -> (r: MsiConfigChirho)
    ensures
        r.pci_bdf_chirho == bdf_chirho,
        r.cap_offset_chirho == cap_chirho,
        r.is_64bit_chirho == (ctrl_chirho & MSI_CTRL_64BIT_CHIRHO != 0),
        r.vectors_capable_chirho == 1u8 << (((ctrl_chirho & MSI_CTRL_MMC_MASK_CHIRHO) >> 1u16) as u8),
        r.vectors_allocated_chirho == 0,
        r.base_vector_chirho == 0,
        r.target_apic_id_chirho == 0,
{
    let mmc_chirho: u8 = ((ctrl_chirho & MSI_CTRL_MMC_MASK_CHIRHO) >> 1u16) as u8;
    assert((ctrl_chirho & 0x0Eu16) >> 1u16 <= 7) by (bit_vector);
    MsiConfigChirho {
        pci_bdf_chirho: bdf_chirho,
        cap_offset_chirho: cap_chirho,
        is_64bit_chirho: ctrl_chirho & MSI_CTRL_64BIT_CHIRHO != 0,
        vectors_capable_chirho: 1u8 << mmc_chirho,
        vectors_allocated_chirho: 0,
        base_vector_chirho: 0,
        target_apic_id_chirho: 0,
    }
}

} // verus!
