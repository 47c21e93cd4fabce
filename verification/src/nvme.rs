//! NVMe: command and completion entries, queue pairs and controller
//! records, and the register arithmetic of the doorbells. Register reads
//! and writes themselves are the caller's.

use vstd::prelude::*;

verus! {

/// Controller Capabilities register.
pub const NVME_CAP_CHIRHO: u64 = 0x00;
/// Version.
pub const NVME_VS_CHIRHO: u64 = 0x08;
/// Interrupt Mask Set.
pub const NVME_INTMS_CHIRHO: u64 = 0x0C;
/// Interrupt Mask Clear.
pub const NVME_INTMC_CHIRHO: u64 = 0x10;
/// Controller Configuration.
pub const NVME_CC_CHIRHO: u64 = 0x14;
/// Controller Status.
pub const NVME_CSTS_CHIRHO: u64 = 0x1C;
/// Admin Queue Attributes.
pub const NVME_AQA_CHIRHO: u64 = 0x24;
/// Admin Submission Queue base.
pub const NVME_ASQ_CHIRHO: u64 = 0x28;
/// Admin Completion Queue base.
pub const NVME_ACQ_CHIRHO: u64 = 0x30;
/// First doorbell register.
pub const NVME_DOORBELL_BASE_CHIRHO: u64 = 0x1000;

/// A 64-byte submission queue entry.
#[derive(Debug, Clone, Copy, Default)]
pub struct NvmeSqeChirho {
    pub cdw0_chirho: u32,
    pub nsid_chirho: u32,
    pub reserved1_chirho: u64,
    pub mptr_chirho: u64,
    pub prp1_chirho: u64,
    pub prp2_chirho: u64,
    pub cdw10_chirho: u32,
    pub cdw11_chirho: u32,
    pub cdw12_chirho: u32,
    pub cdw13_chirho: u32,
    pub cdw14_chirho: u32,
    pub cdw15_chirho: u32,
}

/// A 16-byte completion queue entry.
#[derive(Debug, Clone, Copy, Default)]
pub struct NvmeCqeChirho {
    pub result_chirho: u32,
    pub reserved_chirho: u32,
    pub sq_head_id_chirho: u32,
    /// The status code, command identifier and phase tag, read as the
    /// accessors below read them.
    pub status_cid_chirho: u32,
}

impl NvmeCqeChirho {
    /// The status code: bits 27:17.
    pub fn status_code_chirho(&self) -> (r: u16)
        ensures
            r == ((self.status_cid_chirho >> 17u32) & 0x7FF) as u16,
    {
        ((self.status_cid_chirho >> 17u32) & 0x7FF) as u16
    }

    /// The phase tag: bit 0.
    pub fn phase_chirho(&self) -> (r: bool)
        ensures
            r == (self.status_cid_chirho & 1 != 0),
    {
        self.status_cid_chirho & 1 != 0
    }

    /// The command identifier: bits 15:0.
    pub fn cid_chirho(&self) -> (r: u16)
        ensures
            r == (self.status_cid_chirho & 0xFFFF) as u16,
    {
        (self.status_cid_chirho & 0xFFFF) as u16
    }
}

/// A submission/completion queue pair.
#[derive(Debug, Clone, Copy)]
pub struct NvmeQueuePairChirho {
    pub qid_chirho: u16,
    pub sq_depth_chirho: u16,
    pub cq_depth_chirho: u16,
    pub sq_phys_chirho: u64,
    pub cq_phys_chirho: u64,
    pub sq_tail_chirho: u16,
    pub cq_head_chirho: u16,
    /// The phase tag expected of the next completion.
    pub cq_phase_chirho: bool,
    pub next_cid_chirho: u16,
}

impl NvmeQueuePairChirho {
    /// A new queue pair: both ends at 0, expecting phase 1, command ids
    /// from 0.
    pub fn new_chirho(qid_chirho: u16, sq_depth_chirho: u16, cq_depth_chirho: u16, sq_phys_chirho: u64, cq_phys_chirho: u64)
        -> (r: Self)
        ensures
            r == (NvmeQueuePairChirho {
                qid_chirho,
                sq_depth_chirho,
                cq_depth_chirho,
                sq_phys_chirho,
                cq_phys_chirho,
                sq_tail_chirho: 0,
                cq_head_chirho: 0,
                cq_phase_chirho: true,
                next_cid_chirho: 0,
            }),
    {
        NvmeQueuePairChirho {
            qid_chirho,
            sq_depth_chirho,
            cq_depth_chirho,
            sq_phys_chirho,
            cq_phys_chirho,
            sq_tail_chirho: 0,
            cq_head_chirho: 0,
            cq_phase_chirho: true,
            next_cid_chirho: 0,
        }
    }
}

/// An NVMe controller.
pub struct NvmeControllerChirho {
    pub pci_bdf_chirho: (u8, u8, u8),
    /// Where BAR0 is mapped.
    pub bar0_virt_chirho: u64,
    /// Bytes between doorbell registers.
    pub doorbell_stride_chirho: u32,
    pub max_queue_entries_chirho: u16,
    pub serial_chirho: [u8; 20],
    pub model_chirho: [u8; 40],
    pub firmware_rev_chirho: [u8; 8],
    pub num_namespaces_chirho: u32,
    pub initialized_chirho: bool,
    pub admin_queue_chirho: Option<NvmeQueuePairChirho>,
    pub io_queues_chirho: Vec<NvmeQueuePairChirho>,
}

/// The register offset of submission-queue `qid`'s tail doorbell.
pub open spec fn sq_doorbell(qid: u16, stride: u32) -> int {
    NVME_DOORBELL_BASE_CHIRHO + (2 * qid) * stride
}

/// The register offset of completion-queue `qid`'s head doorbell.
pub open spec fn cq_doorbell(qid: u16, stride: u32) -> int {
    NVME_DOORBELL_BASE_CHIRHO + (2 * qid + 1) * stride
}

impl NvmeControllerChirho {
    /// A controller found at `bus:dev.func` with BAR0 mapped at
    /// `bar0_virt`: doorbell stride 4, nothing identified yet, no queues.
    pub fn new_chirho(bus_chirho: u8, dev_chirho: u8, func_chirho: u8, bar0_virt_chirho: u64) -> (r: Self)
        ensures
            r.pci_bdf_chirho == (bus_chirho, dev_chirho, func_chirho),
            r.bar0_virt_chirho == bar0_virt_chirho,
            r.doorbell_stride_chirho == 4,
            r.max_queue_entries_chirho == 0,
            r.serial_chirho@ == Seq::new(20, |i: int| 0u8),
            r.model_chirho@ == Seq::new(40, |i: int| 0u8),
            r.firmware_rev_chirho@ == Seq::new(8, |i: int| 0u8),
            r.num_namespaces_chirho == 0,
            !r.initialized_chirho,
            r.admin_queue_chirho is None,
            r.io_queues_chirho@.len() == 0,
    {
        let r = NvmeControllerChirho {
            pci_bdf_chirho: (bus_chirho, dev_chirho, func_chirho),
            bar0_virt_chirho,
            doorbell_stride_chirho: 4,
            max_queue_entries_chirho: 0,
            serial_chirho: [0u8; 20],
            model_chirho: [0u8; 40],
            firmware_rev_chirho: [0u8; 8],
            num_namespaces_chirho: 0,
            initialized_chirho: false,
            admin_queue_chirho: None,
            io_queues_chirho: Vec::new(),
        };
        assert(r.serial_chirho@ =~= Seq::new(20, |i: int| 0u8));
        assert(r.model_chirho@ =~= Seq::new(40, |i: int| 0u8));
        assert(r.firmware_rev_chirho@ =~= Seq::new(8, |i: int| 0u8));
        r
    }

    /// The offset of submission queue `qid`'s tail doorbell.
    pub fn sq_doorbell_offset_chirho(&self, qid_chirho: u16) -> (r: u64)
        ensures
            r == sq_doorbell(qid_chirho, self.doorbell_stride_chirho),
    {
        assert((2 * qid_chirho) * self.doorbell_stride_chirho <= 131070 * 0xFFFF_FFFFu64) by (nonlinear_arith);
        NVME_DOORBELL_BASE_CHIRHO + (2 * qid_chirho as u64) * self.doorbell_stride_chirho as u64
    }

    /// The offset of completion queue `qid`'s head doorbell.
    pub fn cq_doorbell_offset_chirho(&self, qid_chirho: u16) -> (r: u64)
        ensures
            r == cq_doorbell(qid_chirho, self.doorbell_stride_chirho),
    {
        assert((2 * qid_chirho + 1) * self.doorbell_stride_chirho <= 131071 * 0xFFFF_FFFFu64) by (nonlinear_arith);
        NVME_DOORBELL_BASE_CHIRHO + (2 * qid_chirho as u64 + 1) * self.doorbell_stride_chirho as u64
    }
}

/// The 64-bit Capabilities register from its two 32-bit halves.
pub fn capabilities_from_halves_chirho(lo_chirho: u32, hi_chirho: u32) -> (r: u64)
    ensures
        r == (lo_chirho as u64) | ((hi_chirho as u64) << 32u64),
{
    (lo_chirho as u64) | ((hi_chirho as u64) << 32u64)
}

/// The controller is ready when bit 0 of Controller Status is set.
pub fn ready_from_status_chirho(csts_chirho: u32) -> (r: bool)
    ensures
        r == (csts_chirho & 1 != 0),
{
    csts_chirho & 1 != 0
}

/// A PCI function is an NVMe controller: class 1 (mass storage),
/// subclass 8 (non-volatile memory), interface 2 (NVMe).
pub fn is_nvme_function_chirho(class_chirho: u8, subclass_chirho: u8, prog_if_chirho: u8) -> (r: bool)
    ensures
        r == (class_chirho == 1 && subclass_chirho == 8 && prog_if_chirho == 2),
{
    class_chirho == 0x01 && subclass_chirho == 0x08 && prog_if_chirho == 0x02
}

/// A namespace of a controller.
#[derive(Debug, Clone, Copy)]
pub struct NvmeNamespaceChirho {
    pub nsid_chirho: u32,
    pub size_blocks_chirho: u64,
    pub block_size_chirho: u32,
    pub capacity_blocks_chirho: u64,
}

} // verus!
