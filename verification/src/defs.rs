//! The registers, commands and data structures of an NVMe controller.
use vstd::prelude::*;

verus! {

/// Register: controller configuration.
pub const OFFSET_CC: usize = 0x14;

/// Register: controller status.
pub const OFFSET_CSTS: usize = 0x1c;

/// Register: admin queue sizes.
pub const OFFSET_AQA: usize = 0x24;

/// Register: admin submission queue.
pub const OFFSET_ASQ: usize = 0x28;

/// Register: admin completion queue.
pub const OFFSET_ACQ: usize = 0x30;

/// Controller configuration: enable.
pub const NVME_CC_ENABLE: u32 = 0x1;

/// Controller configuration: the NVM command set.
pub const NVME_CC_CSS_NVM: u32 = 0x0;

/// Controller configuration: where the memory page size stands.
pub const NVME_CC_MPS_SHIFT: u32 = 7;

/// Controller configuration: round robin arbitration.
pub const NVME_CC_ARB_RR: u32 = 0x0;

/// Controller configuration: no shutdown notification.
pub const NVME_CC_SHN_NONE: u32 = 0x0;

/// Controller configuration: submission entries of 2 to the 6th bytes.
pub const NVME_CC_IOSQES: u32 = 0x6_0000;

/// Controller configuration: completion entries of 2 to the 4th bytes.
pub const NVME_CC_IOCQES: u32 = 0x40_0000;

/// Controller status: ready.
pub const NVME_CSTS_RDY: u32 = 0x1;

/// Queue creation: the queue lies in one piece of memory.
pub const NVME_QUEUE_PHYS_CONTIG: u16 = 0x1;

/// Completion queue creation: interrupts on.
pub const NVME_CQ_IRQ_ENABLED: u16 = 0x2;

/// Submission queue creation: medium priority.
pub const NVME_SQ_PRIO_MEDIUM: u16 = 0x4;

/// Feature: LBA range types.
pub const FEAT_LBA_RANGE: u32 = 0x3;

/// Feature: number of queues.
pub const NVME_FEAT_NUM_QUEUES: u32 = 0x7;

/// Commands for the admin queue.
#[derive(Clone, Copy, PartialEq, Eq, Structural, Debug)]
pub enum NvmeAdminOpcode {
    CreateSq,
    CreateCq,
    Identify,
    SetFeatures,
    GetFeatures,
}

impl NvmeAdminOpcode {
    /// The opcode byte.
    pub open spec fn spec_code(self) -> u8 {
        match self {
            NvmeAdminOpcode::CreateSq => 0x01,
            NvmeAdminOpcode::CreateCq => 0x05,
            NvmeAdminOpcode::Identify => 0x06,
            NvmeAdminOpcode::SetFeatures => 0x09,
            NvmeAdminOpcode::GetFeatures => 0x0a,
        }
    }

    /// The opcode byte.
    pub fn code(self) -> (c: u8)
        ensures
            c == self.spec_code(),
    {
        match self {
            NvmeAdminOpcode::CreateSq => 0x01,
            NvmeAdminOpcode::CreateCq => 0x05,
            NvmeAdminOpcode::Identify => 0x06,
            NvmeAdminOpcode::SetFeatures => 0x09,
            NvmeAdminOpcode::GetFeatures => 0x0a,
        }
    }
}

/// Commands for an I/O queue.
#[derive(Clone, Copy, PartialEq, Eq, Structural, Debug)]
pub enum NvmeOpcode {
    Write,
    Read,
}

impl NvmeOpcode {
    /// The opcode byte.
    pub open spec fn spec_code(self) -> u8 {
        match self {
            NvmeOpcode::Write => 0x01,
            NvmeOpcode::Read => 0x02,
        }
    }

    /// The opcode byte.
    pub fn code(self) -> (c: u8)
        ensures
            c == self.spec_code(),
    {
        match self {
            NvmeOpcode::Write => 0x01,
            NvmeOpcode::Read => 0x02,
        }
    }
}

/// The layout that all commands share.
#[derive(Clone, Copy, PartialEq, Eq, Structural, Debug)]
pub struct NvmeCommon {
    pub opcode: u8,
    pub flags: u8,
    pub command_id: u16,
    pub nsid: u32,
    pub cdw2: u32,
    pub cdw3: u32,
    pub metadata: u64,
    pub prp1: u64,
    pub prp2: u64,
    pub cdw10: u32,
    pub cdw11: u32,
    pub cdw12: u32,
    pub cdw13: u32,
    pub cdw14: u32,
    pub cdw15: u32,
}

impl NvmeCommon {
    /// The command with every field zero.
    pub open spec fn zero() -> NvmeCommon {
        NvmeCommon {
            opcode: 0,
            flags: 0,
            command_id: 0,
            nsid: 0,
            cdw2: 0,
            cdw3: 0,
            metadata: 0,
            prp1: 0,
            prp2: 0,
            cdw10: 0,
            cdw11: 0,
            cdw12: 0,
            cdw13: 0,
            cdw14: 0,
            cdw15: 0,
        }
    }
}

impl Default for NvmeCommon {
    fn default() -> (c: NvmeCommon)
        ensures
            c == NvmeCommon::zero(),
    {
        NvmeCommon {
            opcode: 0,
            flags: 0,
            command_id: 0,
            nsid: 0,
            cdw2: 0,
            cdw3: 0,
            metadata: 0,
            prp1: 0,
            prp2: 0,
            cdw10: 0,
            cdw11: 0,
            cdw12: 0,
            cdw13: 0,
            cdw14: 0,
            cdw15: 0,
        }
    }
}

/// Create I/O completion queue.
#[derive(Clone, Copy, PartialEq, Eq, Structural, Debug)]
pub struct NvmeCreateCq {
    pub opcode: u8,
    pub flags: u8,
    pub command_id: u16,
    pub prp1: u64,
    pub cqid: u16,
    pub qsize: u16,
    pub cq_flags: u16,
    pub irq_vector: u16,
}

impl NvmeCreateCq {
    /// The command with every field zero.
    pub open spec fn zero() -> NvmeCreateCq {
        NvmeCreateCq {
            opcode: 0,
            flags: 0,
            command_id: 0,
            prp1: 0,
            cqid: 0,
            qsize: 0,
            cq_flags: 0,
            irq_vector: 0,
        }
    }
}

impl Default for NvmeCreateCq {
    fn default() -> (c: NvmeCreateCq)
        ensures
            c == NvmeCreateCq::zero(),
    {
        NvmeCreateCq {
            opcode: 0,
            flags: 0,
            command_id: 0,
            prp1: 0,
            cqid: 0,
            qsize: 0,
            cq_flags: 0,
            irq_vector: 0,
        }
    }
}

/// Create I/O submission queue.
#[derive(Clone, Copy, PartialEq, Eq, Structural, Debug)]
pub struct NvmeCreateSq {
    pub opcode: u8,
    pub flags: u8,
    pub command_id: u16,
    pub prp1: u64,
    pub sqid: u16,
    pub qsize: u16,
    pub sq_flags: u16,
    pub cqid: u16,
}

impl NvmeCreateSq {
    /// The command with every field zero.
    pub open spec fn zero() -> NvmeCreateSq {
        NvmeCreateSq {
            opcode: 0,
            flags: 0,
            command_id: 0,
            prp1: 0,
            sqid: 0,
            qsize: 0,
            sq_flags: 0,
            cqid: 0,
        }
    }
}

impl Default for NvmeCreateSq {
    fn default() -> (c: NvmeCreateSq)
        ensures
            c == NvmeCreateSq::zero(),
    {
        NvmeCreateSq {
            opcode: 0,
            flags: 0,
            command_id: 0,
            prp1: 0,
            sqid: 0,
            qsize: 0,
            sq_flags: 0,
            cqid: 0,
        }
    }
}

/// Get or set a feature.
#[derive(Clone, Copy, PartialEq, Eq, Structural, Debug)]
pub struct NvmeFeatures {
    pub opcode: u8,
    pub flags: u8,
    pub command_id: u16,
    pub nsid: u32,
    pub prp1: u64,
    pub prp2: u64,
    pub fid: u32,
    pub dword11: u32,
}

impl NvmeFeatures {
    /// The command with every field zero.
    pub open spec fn zero() -> NvmeFeatures {
        NvmeFeatures {
            opcode: 0,
            flags: 0,
            command_id: 0,
            nsid: 0,
            prp1: 0,
            prp2: 0,
            fid: 0,
            dword11: 0,
        }
    }
}

impl Default for NvmeFeatures {
    fn default() -> (c: NvmeFeatures)
        ensures
            c == NvmeFeatures::zero(),
    {
        NvmeFeatures {
            opcode: 0,
            flags: 0,
            command_id: 0,
            nsid: 0,
            prp1: 0,
            prp2: 0,
            fid: 0,
            dword11: 0,
        }
    }
}

/// Identify the controller or a namespace.
#[derive(Clone, Copy, PartialEq, Eq, Structural, Debug)]
pub struct NvmeIdentify {
    pub opcode: u8,
    pub flags: u8,
    pub command_id: u16,
    pub nsid: u32,
    pub prp1: u64,
    pub prp2: u64,
    pub cns: u32,
}

impl NvmeIdentify {
    /// The command with every field zero.
    pub open spec fn zero() -> NvmeIdentify {
        NvmeIdentify {
            opcode: 0,
            flags: 0,
            command_id: 0,
            nsid: 0,
            prp1: 0,
            prp2: 0,
            cns: 0,
        }
    }
}

impl Default for NvmeIdentify {
    fn default() -> (c: NvmeIdentify)
        ensures
            c == NvmeIdentify::zero(),
    {
        NvmeIdentify {
            opcode: 0,
            flags: 0,
            command_id: 0,
            nsid: 0,
            prp1: 0,
            prp2: 0,
            cns: 0,
        }
    }
}

/// Read or write blocks.
#[derive(Clone, Copy, PartialEq, Eq, Structural, Debug)]
pub struct NvmeRw {
    pub opcode: u8,
    pub flags: u8,
    pub command_id: u16,
    pub nsid: u32,
    pub metadata: u64,
    pub prp1: u64,
    pub prp2: u64,
    pub slba: u64,
    pub length: u16,
    pub control: u16,
    pub dsmgmt: u32,
    pub reftag: u32,
    pub apptag: u16,
    pub appmask: u16,
}

impl NvmeRw {
    /// The command with every field zero.
    pub open spec fn zero() -> NvmeRw {
        NvmeRw {
            opcode: 0,
            flags: 0,
            command_id: 0,
            nsid: 0,
            metadata: 0,
            prp1: 0,
            prp2: 0,
            slba: 0,
            length: 0,
            control: 0,
            dsmgmt: 0,
            reftag: 0,
            apptag: 0,
            appmask: 0,
        }
    }
}

impl Default for NvmeRw {
    fn default() -> (c: NvmeRw)
        ensures
            c == NvmeRw::zero(),
    {
        NvmeRw {
            opcode: 0,
            flags: 0,
            command_id: 0,
            nsid: 0,
            metadata: 0,
            prp1: 0,
            prp2: 0,
            slba: 0,
            length: 0,
            control: 0,
            dsmgmt: 0,
            reftag: 0,
            apptag: 0,
            appmask: 0,
        }
    }
}

/// A command in one of its layouts. All of them lie over the same sixteen words.
#[derive(Clone, Copy, PartialEq, Eq, Structural, Debug)]
pub enum NvmeCommand {
    Common(NvmeCommon),
    CreateCq(NvmeCreateCq),
    CreateSq(NvmeCreateSq),
    Features(NvmeFeatures),
    Identify(NvmeIdentify),
    Rw(NvmeRw),
}

/// The word whose lower half is `low` and whose upper half is `high`.
pub open spec fn halves(low: u16, high: u16) -> u32 {
    (low + high * 0x1_0000) as u32
}

fn join_halves(low: u16, high: u16) -> (w: u32)
    ensures
        w == halves(low, high),
{
    low as u32 + high as u32 * 0x1_0000
}

impl NvmeCommand {
    /// The command read in the layout that all commands share.
    pub open spec fn common(self) -> NvmeCommon {
        match self {
            NvmeCommand::Common(c) => c,
            NvmeCommand::CreateCq(c) => NvmeCommon {
                opcode: c.opcode,
                flags: c.flags,
                command_id: c.command_id,
                prp1: c.prp1,
                cdw10: halves(c.cqid, c.qsize),
                cdw11: halves(c.cq_flags, c.irq_vector),
                ..NvmeCommon::zero()
            },
            NvmeCommand::CreateSq(c) => NvmeCommon {
                opcode: c.opcode,
                flags: c.flags,
                command_id: c.command_id,
                prp1: c.prp1,
                cdw10: halves(c.sqid, c.qsize),
                cdw11: halves(c.sq_flags, c.cqid),
                ..NvmeCommon::zero()
            },
            NvmeCommand::Features(c) => NvmeCommon {
                opcode: c.opcode,
                flags: c.flags,
                command_id: c.command_id,
                nsid: c.nsid,
                prp1: c.prp1,
                prp2: c.prp2,
                cdw10: c.fid,
                cdw11: c.dword11,
                ..NvmeCommon::zero()
            },
            NvmeCommand::Identify(c) => NvmeCommon {
                opcode: c.opcode,
                flags: c.flags,
                command_id: c.command_id,
                nsid: c.nsid,
                prp1: c.prp1,
                prp2: c.prp2,
                cdw10: c.cns,
                ..NvmeCommon::zero()
            },
            NvmeCommand::Rw(c) => NvmeCommon {
                opcode: c.opcode,
                flags: c.flags,
                command_id: c.command_id,
                nsid: c.nsid,
                cdw2: 0,
                cdw3: 0,
                metadata: c.metadata,
                prp1: c.prp1,
                prp2: c.prp2,
                cdw10: (c.slba % 0x1_0000_0000) as u32,
                cdw11: (c.slba / 0x1_0000_0000) as u32,
                cdw12: halves(c.length, c.control),
                cdw13: c.dsmgmt,
                cdw14: c.reftag,
                cdw15: halves(c.apptag, c.appmask),
            },
        }
    }

    /// Reads the command in the layout that all commands share.
    pub fn as_common(&self) -> (c: NvmeCommon)
        ensures
            c == self.common(),
    {
        match *self {
            NvmeCommand::Common(c) => c,
            NvmeCommand::CreateCq(c) => NvmeCommon {
                opcode: c.opcode,
                flags: c.flags,
                command_id: c.command_id,
                prp1: c.prp1,
                cdw10: join_halves(c.cqid, c.qsize),
                cdw11: join_halves(c.cq_flags, c.irq_vector),
                ..NvmeCommon::default()
            },
            NvmeCommand::CreateSq(c) => NvmeCommon {
                opcode: c.opcode,
                flags: c.flags,
                command_id: c.command_id,
                prp1: c.prp1,
                cdw10: join_halves(c.sqid, c.qsize),
                cdw11: join_halves(c.sq_flags, c.cqid),
                ..NvmeCommon::default()
            },
            NvmeCommand::Features(c) => NvmeCommon {
                opcode: c.opcode,
                flags: c.flags,
                command_id: c.command_id,
                nsid: c.nsid,
                prp1: c.prp1,
                prp2: c.prp2,
                cdw10: c.fid,
                cdw11: c.dword11,
                ..NvmeCommon::default()
            },
            NvmeCommand::Identify(c) => NvmeCommon {
                opcode: c.opcode,
                flags: c.flags,
                command_id: c.command_id,
                nsid: c.nsid,
                prp1: c.prp1,
                prp2: c.prp2,
                cdw10: c.cns,
                ..NvmeCommon::default()
            },
            NvmeCommand::Rw(c) => NvmeCommon {
                opcode: c.opcode,
                flags: c.flags,
                command_id: c.command_id,
                nsid: c.nsid,
                cdw2: 0,
                cdw3: 0,
                metadata: c.metadata,
                prp1: c.prp1,
                prp2: c.prp2,
                cdw10: (c.slba % 0x1_0000_0000) as u32,
                cdw11: (c.slba / 0x1_0000_0000) as u32,
                cdw12: join_halves(c.length, c.control),
                cdw13: c.dsmgmt,
                cdw14: c.reftag,
                cdw15: join_halves(c.apptag, c.appmask),
            },
        }
    }
}

/// The shared layout loses nothing: two commands of one kind that read alike in it are the same.
pub proof fn law_common_layout_is_faithful(a: NvmeCommand, b: NvmeCommand)
    requires
        a.common() == b.common(),
    ensures
        match (a, b) {
            (NvmeCommand::Common(x), NvmeCommand::Common(y)) => x == y,
            (NvmeCommand::CreateCq(x), NvmeCommand::CreateCq(y)) => x == y,
            (NvmeCommand::CreateSq(x), NvmeCommand::CreateSq(y)) => x == y,
            (NvmeCommand::Features(x), NvmeCommand::Features(y)) => x == y,
            (NvmeCommand::Identify(x), NvmeCommand::Identify(y)) => x == y,
            (NvmeCommand::Rw(x), NvmeCommand::Rw(y)) => x == y,
            _ => true,
        },
{
}

/// An entry of a completion queue.
#[derive(Clone, Copy, PartialEq, Eq, Structural, Debug)]
pub struct NvmeCompletion {
    pub result: u32,
    pub sq_head: u16,
    pub sq_id: u16,
    pub command_id: u16,
    /// The phase tag is the lowest bit, the status proper is above it.
    pub status: u16,
}

/// A way to format a namespace: metadata size, data size as a power of two, and performance.
#[derive(Clone, Copy, PartialEq, Eq, Structural, Debug)]
pub struct NvmeLbaf {
    pub ms: u16,
    pub ds: u8,
    pub rp: u8,
}

/// How many formats a namespace lists.
pub const LBAF_COUNT: usize = 16;

/// What the driver reads of the identify data of a namespace.
#[derive(Clone, Copy, PartialEq, Eq, Debug)]
pub struct NvmeIdNs {
    /// Size, in blocks.
    pub nsze: u64,
    /// Capacity, in blocks.
    pub ncap: u64,
    /// Which format is in use, in the lower four bits.
    pub flbas: u8,
    /// The formats.
    pub lbaf: [NvmeLbaf; LBAF_COUNT],
}

/// A namespace that has a disk.
#[derive(Clone, Copy, PartialEq, Eq, Structural, Debug)]
pub struct NvmeNamespace {
    pub id: u32,
    pub lba_shift: u32,
}

/// One access to the registers of the controller.
#[derive(Clone, Copy, PartialEq, Eq, Structural, Debug)]
pub enum BarOp {
    /// Write 32 bits.
    Writel { word: u32, offset: usize },
    /// Write 64 bits.
    Writeq { quad: u64, offset: usize },
    /// Read the status until the controller is idle.
    PollIdle,
    /// Read the status until the controller is ready.
    PollReady,
}

/// The opcodes of the commands for the admin queue, as the device knows them.
pub proof fn law_admin_opcodes(op: NvmeAdminOpcode, c: u8)
    requires
        call_ensures(NvmeAdminOpcode::code, (op,), c),
    ensures
        c == 0x01 <==> op == NvmeAdminOpcode::CreateSq,
        c == 0x05 <==> op == NvmeAdminOpcode::CreateCq,
        c == 0x06 <==> op == NvmeAdminOpcode::Identify,
        c == 0x09 <==> op == NvmeAdminOpcode::SetFeatures,
        c == 0x0a <==> op == NvmeAdminOpcode::GetFeatures,
{
}

/// The opcodes of the commands for an I/O queue, as the device knows them.
pub proof fn law_io_opcodes(op: NvmeOpcode, c: u8)
    requires
        call_ensures(NvmeOpcode::code, (op,), c),
    ensures
        c == 0x01 <==> op == NvmeOpcode::Write,
        c == 0x02 <==> op == NvmeOpcode::Read,
{
}

/// A command of any kind that nothing was set in has zero in every field.
pub proof fn law_default_commands_are_zero(
    common: NvmeCommon,
    cq: NvmeCreateCq,
    sq: NvmeCreateSq,
    features: NvmeFeatures,
    identify: NvmeIdentify,
    rw: NvmeRw,
)
    requires
        call_ensures(<NvmeCommon as Default>::default, (), common),
        call_ensures(<NvmeCreateCq as Default>::default, (), cq),
        call_ensures(<NvmeCreateSq as Default>::default, (), sq),
        call_ensures(<NvmeFeatures as Default>::default, (), features),
        call_ensures(<NvmeIdentify as Default>::default, (), identify),
        call_ensures(<NvmeRw as Default>::default, (), rw),
    ensures
        common.opcode == 0,
        common.flags == 0,
        common.command_id == 0,
        common.nsid == 0,
        common.cdw2 == 0,
        common.cdw3 == 0,
        common.metadata == 0,
        common.prp1 == 0,
        common.prp2 == 0,
        common.cdw10 == 0,
        common.cdw11 == 0,
        common.cdw12 == 0,
        common.cdw13 == 0,
        common.cdw14 == 0,
        common.cdw15 == 0,
        cq.opcode == 0,
        cq.flags == 0,
        cq.command_id == 0,
        cq.prp1 == 0,
        cq.cqid == 0,
        cq.qsize == 0,
        cq.cq_flags == 0,
        cq.irq_vector == 0,
        sq.opcode == 0,
        sq.flags == 0,
        sq.command_id == 0,
        sq.prp1 == 0,
        sq.sqid == 0,
        sq.qsize == 0,
        sq.sq_flags == 0,
        sq.cqid == 0,
        features.opcode == 0,
        features.flags == 0,
        features.command_id == 0,
        features.nsid == 0,
        features.prp1 == 0,
        features.prp2 == 0,
        features.fid == 0,
        features.dword11 == 0,
        identify.opcode == 0,
        identify.flags == 0,
        identify.command_id == 0,
        identify.nsid == 0,
        identify.prp1 == 0,
        identify.prp2 == 0,
        identify.cns == 0,
        rw.opcode == 0,
        rw.flags == 0,
        rw.command_id == 0,
        rw.nsid == 0,
        rw.metadata == 0,
        rw.prp1 == 0,
        rw.prp2 == 0,
        rw.slba == 0,
        rw.length == 0,
        rw.control == 0,
        rw.dsmgmt == 0,
        rw.reftag == 0,
        rw.apptag == 0,
        rw.appmask == 0,
{
}

} // verus!
