//! Bringing the controller up, and the commands for the admin queue.
use vstd::arithmetic::power2::{lemma2_to64, pow2};
use vstd::prelude::*;

use crate::defs::{
    BarOp, NvmeAdminOpcode, NvmeCommand, NvmeCommon, NvmeCreateCq, NvmeCreateSq, NvmeFeatures, NvmeIdentify,
    NVME_CC_ARB_RR, NVME_CC_CSS_NVM, NVME_CC_ENABLE, NVME_CC_IOCQES, NVME_CC_IOSQES,
    NVME_CC_MPS_SHIFT, NVME_CC_SHN_NONE, NVME_CQ_IRQ_ENABLED, NVME_CSTS_RDY, NVME_FEAT_NUM_QUEUES,
    NVME_QUEUE_PHYS_CONTIG, NVME_SQ_PRIO_MEDIUM, OFFSET_ACQ, OFFSET_AQA, OFFSET_ASQ, OFFSET_CC,
};
use crate::prp::CTRL_PAGE_SIZE;
use crate::queue::NvmeQueue;
use crate::wire::{
    command_bytes, law_command_bytes_read_back, law_create_cq_command_in_memory,
    law_create_sq_command_in_memory, law_features_command_in_memory,
    law_identify_command_in_memory, le16, le32, le64, COMPLETION_LEN,
};

verus! {

/// The controller reports that it is ready.
pub open spec fn is_ready(csts: u32) -> bool {
    csts % 2 == 1
}

/// Whether a wait for the controller to be ready is over, when its status is `csts`.
pub fn wait_ready(csts: u32) -> (over: bool)
    ensures
        over == is_ready(csts),
{
    assert(csts & 1 == csts % 2) by (bit_vector);
    csts & NVME_CSTS_RDY != 0
}

/// Whether a wait for the controller to be idle is over, when its status is `csts`.
pub fn wait_idle(csts: u32) -> (over: bool)
    ensures
        over == !is_ready(csts),
{
    assert(csts & 1 == csts % 2) by (bit_vector);
    csts & NVME_CSTS_RDY == 0
}

/// The configuration of a running controller: enabled, submission entries of 64 bytes, completion
/// entries of 16 bytes, pages of 4096 bytes.
pub const RUNNING: u32 = 0x46_0001;

/// How the admin queue is made known to the controller: it is stopped, and once it is idle it is
/// told the size and the place of both queues and is started.
pub open spec fn admin_setup(depth: u16, queue: NvmeQueue) -> Seq<BarOp> {
    seq![
        BarOp::Writel { word: 0, offset: OFFSET_CC },
        BarOp::PollIdle,
        BarOp::Writel { word: ((depth - 1) * 0x1_0001) as u32, offset: OFFSET_AQA },
        BarOp::Writeq { quad: queue.sq_dma_handle, offset: OFFSET_ASQ },
        BarOp::Writeq { quad: queue.cq_dma_handle, offset: OFFSET_ACQ },
        BarOp::Writel { word: RUNNING, offset: OFFSET_CC },
    ]
}

/// The steps that make the admin queue known to the controller and start it, without a wait for
/// the start to be over.
pub fn start_admin_queue(depth: u16, queue: &NvmeQueue) -> (ops: Vec<BarOp>)
    requires
        depth >= 1,
    ensures
        ops@ == admin_setup(depth, *queue),
{
    let size: u32 = (depth - 1) as u32;
    assert(size <= 0xffff ==> size | (size << 16) == size * 0x1_0001) by (bit_vector);
    let aqa: u32 = size | (size << 16);
    assert(((((0x1u32 | 0x0u32) | (0u32 << 7u32)) | (0x0u32 | 0x0u32)) | (0x6_0000u32
        | 0x40_0000u32)) == 0x46_0001u32) by (bit_vector);
    let mut ctrl_config: u32 = NVME_CC_ENABLE | NVME_CC_CSS_NVM;
    ctrl_config = ctrl_config | (0u32 << NVME_CC_MPS_SHIFT);
    ctrl_config = ctrl_config | (NVME_CC_ARB_RR | NVME_CC_SHN_NONE);
    ctrl_config = ctrl_config | (NVME_CC_IOSQES | NVME_CC_IOCQES);
    let mut ops: Vec<BarOp> = Vec::new();
    ops.push(BarOp::Writel { word: 0, offset: OFFSET_CC });
    ops.push(BarOp::PollIdle);
    ops.push(BarOp::Writel { word: aqa, offset: OFFSET_AQA });
    ops.push(BarOp::Writeq { quad: queue.sq_dma_handle, offset: OFFSET_ASQ });
    ops.push(BarOp::Writeq { quad: queue.cq_dma_handle, offset: OFFSET_ACQ });
    ops.push(BarOp::Writel { word: ctrl_config, offset: OFFSET_CC });
    assert(ops@ =~= admin_setup(depth, *queue));
    ops
}

/// The steps that make the admin queue known to the controller, start it, and wait until it is
/// ready.
pub fn config_admin_queue(depth: u16, queue: &NvmeQueue) -> (ops: Vec<BarOp>)
    requires
        depth >= 1,
    ensures
        ops@ == admin_setup(depth, *queue).push(BarOp::PollReady),
{
    let mut ops = start_admin_queue(depth, queue);
    ops.push(BarOp::PollReady);
    ops
}

/// The command that creates the completion queue of `queue`. Unless completions are polled for,
/// they raise the interrupt of the queue.
pub open spec fn create_cq(queue: NvmeQueue) -> NvmeCreateCq {
    NvmeCreateCq {
        opcode: NvmeAdminOpcode::CreateCq.spec_code(),
        prp1: queue.cq_dma_handle,
        cqid: queue.qid,
        qsize: (queue.q_depth - 1) as u16,
        cq_flags: if queue.polled {
            NVME_QUEUE_PHYS_CONTIG
        } else {
            (NVME_QUEUE_PHYS_CONTIG + NVME_CQ_IRQ_ENABLED) as u16
        },
        irq_vector: queue.cq_vector,
        ..NvmeCreateCq::zero()
    }
}

/// The command that creates the submission queue of `queue`, at medium priority.
pub open spec fn create_sq(queue: NvmeQueue) -> NvmeCreateSq {
    NvmeCreateSq {
        opcode: NvmeAdminOpcode::CreateSq.spec_code(),
        prp1: queue.sq_dma_handle,
        sqid: queue.qid,
        qsize: (queue.q_depth - 1) as u16,
        sq_flags: (NVME_QUEUE_PHYS_CONTIG + NVME_SQ_PRIO_MEDIUM) as u16,
        cqid: queue.qid,
        ..NvmeCreateSq::zero()
    }
}

/// The command that sets the feature `fid` to `dword11`.
pub open spec fn set_feature(fid: u32, dword11: u32) -> NvmeFeatures {
    NvmeFeatures {
        opcode: NvmeAdminOpcode::SetFeatures.spec_code(),
        fid,
        dword11,
        ..NvmeFeatures::zero()
    }
}

/// The command that has identify data of the kind `cns` written to `dma_addr`.
pub open spec fn identify_to(nsid: u32, cns: u32, dma_addr: u64) -> NvmeIdentify {
    NvmeIdentify {
        opcode: NvmeAdminOpcode::Identify.spec_code(),
        nsid,
        prp1: dma_addr,
        cns,
        ..NvmeIdentify::zero()
    }
}

/// The command that has the feature `fid` of a namespace written to `dma_addr`.
pub open spec fn get_feature(fid: u32, nsid: u32, dma_addr: u64) -> NvmeFeatures {
    NvmeFeatures {
        opcode: NvmeAdminOpcode::GetFeatures.spec_code(),
        nsid,
        prp1: dma_addr,
        fid,
        ..NvmeFeatures::zero()
    }
}

/// The command that creates the completion queue of `queue`.
pub fn alloc_completion_queue(queue: &NvmeQueue) -> (cmd: NvmeCommand)
    requires
        queue.q_depth >= 1,
    ensures
        cmd == NvmeCommand::CreateCq(create_cq(*queue)),
{
    let mut flags: u16 = NVME_QUEUE_PHYS_CONTIG;
    if !queue.polled {
        assert(0x1u16 | 0x2u16 == 0x3u16) by (bit_vector);
        flags = flags | NVME_CQ_IRQ_ENABLED;
    }
    NvmeCommand::CreateCq(
        NvmeCreateCq {
            opcode: NvmeAdminOpcode::CreateCq.code(),
            prp1: queue.cq_dma_handle,
            cqid: queue.qid,
            qsize: queue.q_depth - 1,
            cq_flags: flags,
            irq_vector: queue.cq_vector,
            ..NvmeCreateCq::default()
        },
    )
}

/// The command that creates the submission queue of `queue`.
pub fn alloc_submission_queue(queue: &NvmeQueue) -> (cmd: NvmeCommand)
    requires
        queue.q_depth >= 1,
    ensures
        cmd == NvmeCommand::CreateSq(create_sq(*queue)),
{
    assert(0x1u16 | 0x4u16 == 0x5u16) by (bit_vector);
    NvmeCommand::CreateSq(
        NvmeCreateSq {
            opcode: NvmeAdminOpcode::CreateSq.code(),
            prp1: queue.sq_dma_handle,
            sqid: queue.qid,
            qsize: queue.q_depth - 1,
            sq_flags: NVME_QUEUE_PHYS_CONTIG | NVME_SQ_PRIO_MEDIUM,
            cqid: queue.qid,
            ..NvmeCreateSq::default()
        },
    )
}

/// The command that asks for queues: `count` is put in the feature as it is.
pub fn set_queue_count(count: u32) -> (cmd: NvmeCommand)
    ensures
        cmd == NvmeCommand::Features(set_feature(NVME_FEAT_NUM_QUEUES, count)),
{
    set_features(NVME_FEAT_NUM_QUEUES, count, 0)
}

/// The command that sets a feature. None of the features that are set here has data in memory, so
/// the command carries no data pointer, whatever `dma_addr` is.
pub fn set_features(fid: u32, dword11: u32, dma_addr: u64) -> (cmd: NvmeCommand)
    ensures
        cmd == NvmeCommand::Features(set_feature(fid, dword11)),
{
    NvmeCommand::Features(
        NvmeFeatures {
            opcode: NvmeAdminOpcode::SetFeatures.code(),
            fid,
            dword11,
            ..NvmeFeatures::default()
        },
    )
}

/// The command that has identify data written to `dma_addr`.
pub fn identify(nsid: u32, cns: u32, dma_addr: u64) -> (cmd: NvmeCommand)
    ensures
        cmd == NvmeCommand::Identify(identify_to(nsid, cns, dma_addr)),
{
    NvmeCommand::Identify(
        NvmeIdentify {
            opcode: NvmeAdminOpcode::Identify.code(),
            nsid,
            prp1: dma_addr,
            cns,
            ..NvmeIdentify::default()
        },
    )
}

/// The command that has a feature written to `dma_addr`.
pub fn get_features(fid: u32, nsid: u32, dma_addr: u64) -> (cmd: NvmeCommand)
    ensures
        cmd == NvmeCommand::Features(get_feature(fid, nsid, dma_addr)),
{
    NvmeCommand::Features(
        NvmeFeatures {
            opcode: NvmeAdminOpcode::GetFeatures.code(),
            nsid,
            prp1: dma_addr,
            fid,
            ..NvmeFeatures::default()
        },
    )
}

/// The registers of a controller, as far as the driver writes them, and whether it was seen idle
/// since it was last enabled.
pub struct Registers {
    pub cc: int,
    pub aqa: int,
    pub asq: int,
    pub acq: int,
    pub idle: bool,
}

impl Registers {
    /// The registers after one access.
    pub open spec fn after(self, op: BarOp) -> Registers {
        match op {
            BarOp::Writel { word, offset } => if offset == OFFSET_CC {
                Registers { cc: word as int, idle: self.idle && word % 2 == 0, ..self }
            } else if offset == OFFSET_AQA {
                Registers { aqa: word as int, ..self }
            } else {
                self
            },
            BarOp::Writeq { quad, offset } => if offset == OFFSET_ASQ {
                Registers { asq: quad as int, ..self }
            } else if offset == OFFSET_ACQ {
                Registers { acq: quad as int, ..self }
            } else {
                self
            },
            BarOp::PollIdle => Registers { idle: self.cc % 2 == 0, ..self },
            BarOp::PollReady => self,
        }
    }

    /// The registers after the first `n` accesses of `ops`.
    pub open spec fn after_all(self, ops: Seq<BarOp>, n: int) -> Registers
        decreases n,
    {
        if n <= 0 {
            self
        } else {
            self.after_all(ops, n - 1).after(ops[n - 1])
        }
    }
}

/// The access tells the controller the size or the place of an admin queue.
pub open spec fn sets_queue(op: BarOp) -> bool {
    match op {
        BarOp::Writel { word: _, offset } => offset == OFFSET_AQA,
        BarOp::Writeq { quad: _, offset } => offset == OFFSET_ASQ || offset == OFFSET_ACQ,
        _ => false,
    }
}

/// Whatever state the controller was in, it is told about the admin queues only while it is
/// disabled and was seen idle. In the end it is enabled and knows both queues by their places,
/// each with `depth` entries.
pub proof fn law_admin_queue_is_set_up_while_idle(start: Registers, depth: u16, queue: NvmeQueue)
    requires
        depth >= 1,
    ensures
        forall|n: int|
            0 <= n < 6 && sets_queue(#[trigger] admin_setup(depth, queue)[n]) ==> {
                let now = start.after_all(admin_setup(depth, queue), n);
                now.idle && now.cc % 2 == 0
            },
        ({
            let end = start.after_all(admin_setup(depth, queue), 6);
            &&& end.cc == RUNNING
            &&& end.cc % 2 == 1
            &&& end.aqa % 0x1_0000 + 1 == depth
            &&& end.aqa / 0x1_0000 + 1 == depth
            &&& end.asq == queue.sq_dma_handle
            &&& end.acq == queue.cq_dma_handle
        }),
{
    let ops = admin_setup(depth, queue);
    reveal_with_fuel(Registers::after_all, 7);
    assert(ops.len() == 6);
    assert(start.after_all(ops, 1).cc == 0);
    assert(start.after_all(ops, 2).idle);
}

/// The controller is told the sizes that the driver works with: those of a command and of a
/// completion in memory, and that of a page.
pub proof fn law_configured_sizes_are_those_in_use(c: NvmeCommon)
    ensures
        pow2((RUNNING / 0x1_0000 % 0x10) as nat) == command_bytes(c).len(),
        pow2((RUNNING / 0x10_0000 % 0x10) as nat) == COMPLETION_LEN,
        pow2((12 + RUNNING / 0x80 % 0x10) as nat) == CTRL_PAGE_SIZE,
{
    lemma2_to64();
    law_command_bytes_read_back(c);
}

/// The submission queue of a pair is created with the completion queue of the same pair, and with
/// as many entries: `q_depth` of them, as the device counts from zero.
pub proof fn law_queue_pair_is_created_alike(queue: NvmeQueue)
    requires
        queue.q_depth >= 1,
    ensures
        create_sq(queue).cqid == create_cq(queue).cqid,
        create_sq(queue).qsize == create_cq(queue).qsize,
        create_cq(queue).qsize + 1 == queue.q_depth,
{
}

/// A wait for the controller to be ready ends exactly where a wait for it to be idle does not:
/// when the lowest bit of its status is set, whatever the other bits are.
pub proof fn law_waits_end_by_the_lowest_bit(csts: u32, ready: bool, idle: bool)
    requires
        call_ensures(wait_ready, (csts,), ready),
        call_ensures(wait_idle, (csts,), idle),
    ensures
        ready <==> csts & 1 == 1,
        idle <==> csts & 1 == 0,
{
    assert(csts & 1 == csts % 2) by (bit_vector);
}

/// The controller is brought up by these accesses, in this order: it is disabled, and once it is
/// idle it gets the sizes of both admin queues, each as the number of its last entry, then the
/// whole address of the submission queue and that of the completion queue; then it is enabled,
/// for submission entries of 2 to the 6th and completion entries of 2 to the 4th bytes. What waits
/// for it to be ready does so at the end, and nothing else.
pub proof fn law_controller_is_brought_up_in_order(
    depth: u16,
    queue: &NvmeQueue,
    ops: Vec<BarOp>,
    waiting: Vec<BarOp>,
)
    requires
        depth >= 1,
        call_ensures(start_admin_queue, (depth, queue), ops),
        call_ensures(config_admin_queue, (depth, queue), waiting),
    ensures
        call_requires(start_admin_queue, (depth, queue)),
        call_requires(config_admin_queue, (depth, queue)),
        ops@.len() == 6,
        ops@[0] == (BarOp::Writel { word: 0, offset: 0x14 }),
        ops@[1] == BarOp::PollIdle,
        ops@[2] matches BarOp::Writel { word, offset } && offset == 0x24 && word % 0x1_0000 + 1
            == depth && word / 0x1_0000 + 1 == depth,
        ops@[3] == (BarOp::Writeq { quad: queue.sq_dma_handle, offset: 0x28 }),
        ops@[4] == (BarOp::Writeq { quad: queue.cq_dma_handle, offset: 0x30 }),
        ops@[5] matches BarOp::Writel { word, offset } && offset == 0x14 && word == 1 + 6
            * 0x1_0000 + 4 * 0x10_0000,
        waiting@.len() == 7,
        waiting@[6] == BarOp::PollReady,
        forall|i: int| 0 <= i < 6 ==> #[trigger] waiting@[i] == ops@[i],
{
    lemma_sizes_are_those_of_the_depth(depth);
}

/// The register for the sizes of the admin queues holds the number of the last entry twice.
pub proof fn lemma_sizes_are_those_of_the_depth(depth: u16)
    requires
        depth >= 1,
    ensures
        ({
            let word = ((depth - 1) * 0x1_0001) as u32;
            &&& word % 0x1_0000 + 1 == depth
            &&& word / 0x1_0000 + 1 == depth
        }),
{
    let word = ((depth - 1) * 0x1_0001) as u32;
    assert(word == (depth - 1) * 0x1_0001);
    assert(word == (depth - 1) * 0x1_0000 + (depth - 1));
}

/// What the device reads in the command for a completion queue: the whole address of the queue,
/// its identifier, the number of its last entry, that it lies in one piece, whether it raises
/// interrupts, and on which vector. All else is zero.
#[verifier::spinoff_prover]
#[verifier::rlimit(40)]
pub proof fn law_device_is_told_of_the_completion_queue(
    queue: &NvmeQueue,
    cmd: NvmeCommand,
    b: Vec<u8>,
)
    requires
        queue.q_depth >= 1,
        call_ensures(alloc_completion_queue, (queue,), cmd),
        call_ensures(NvmeCommand::to_bytes, (&cmd,), b),
    ensures
        call_requires(alloc_completion_queue, (queue,)),
        b@.len() == 64,
        b@[0] == 0x05,
        le64(b@, 24) == queue.cq_dma_handle,
        le16(b@, 40) == queue.qid,
        le16(b@, 42) + 1 == queue.q_depth,
        b@[44] == if queue.polled { 1int } else { 3int },
        b@[45] == 0,
        le16(b@, 46) == queue.cq_vector,
        forall|i: int|
            1 <= i < 24 || 32 <= i < 40 || 48 <= i < 64 ==> #[trigger] b@[i] == 0,
{
    law_create_cq_command_in_memory(create_cq(*queue), &cmd, b);
}

/// What the device reads in the command for a submission queue: the whole address of the queue,
/// its identifier, the number of its last entry, that it lies in one piece and has medium
/// priority, and the completion queue of the same pair. All else is zero.
#[verifier::spinoff_prover]
#[verifier::rlimit(40)]
pub proof fn law_device_is_told_of_the_submission_queue(
    queue: &NvmeQueue,
    cmd: NvmeCommand,
    b: Vec<u8>,
)
    requires
        queue.q_depth >= 1,
        call_ensures(alloc_submission_queue, (queue,), cmd),
        call_ensures(NvmeCommand::to_bytes, (&cmd,), b),
    ensures
        call_requires(alloc_submission_queue, (queue,)),
        b@.len() == 64,
        b@[0] == 0x01,
        le64(b@, 24) == queue.sq_dma_handle,
        le16(b@, 40) == queue.qid,
        le16(b@, 42) + 1 == queue.q_depth,
        b@[44] == 5,
        b@[45] == 0,
        le16(b@, 46) == queue.qid,
        forall|i: int|
            1 <= i < 24 || 32 <= i < 40 || 48 <= i < 64 ==> #[trigger] b@[i] == 0,
{
    law_create_sq_command_in_memory(create_sq(*queue), &cmd, b);
}

/// The whole address of each queue of a pair is in the command that creates it.
pub proof fn law_queues_are_created_where_they_are(
    queue: &NvmeQueue,
    cq: NvmeCommand,
    sq: NvmeCommand,
)
    requires
        call_ensures(alloc_completion_queue, (queue,), cq),
        call_ensures(alloc_submission_queue, (queue,), sq),
    ensures
        cq matches NvmeCommand::CreateCq(c) && c.prp1 == queue.cq_dma_handle,
        sq matches NvmeCommand::CreateSq(s) && s.prp1 == queue.sq_dma_handle,
{
}

/// What the device reads in the command that sets a feature: which one, and its value. All else is
/// zero; no address is given to it. Asking for queues is setting feature 7 to their number.
#[verifier::spinoff_prover]
#[verifier::rlimit(40)]
pub proof fn law_device_is_told_of_a_feature(
    fid: u32,
    dword11: u32,
    dma_addr: u64,
    cmd: NvmeCommand,
    b: Vec<u8>,
)
    requires
        call_ensures(set_features, (fid, dword11, dma_addr), cmd) || (fid == 7 && call_ensures(
            set_queue_count,
            (dword11,),
            cmd,
        )),
        call_ensures(NvmeCommand::to_bytes, (&cmd,), b),
    ensures
        b@.len() == 64,
        b@[0] == 0x09,
        le32(b@, 40) == fid,
        le32(b@, 44) == dword11,
        forall|i: int| 1 <= i < 40 || 48 <= i < 64 ==> #[trigger] b@[i] == 0,
{
    law_features_command_in_memory(set_feature(fid, dword11), &cmd, b);
}

/// What the device reads in the command that asks for identify data: of which namespace, of which
/// kind, and the whole address that they go to. All else is zero.
#[verifier::spinoff_prover]
#[verifier::rlimit(40)]
pub proof fn law_device_is_asked_for_identify_data(
    nsid: u32,
    cns: u32,
    dma_addr: u64,
    cmd: NvmeCommand,
    b: Vec<u8>,
)
    requires
        call_ensures(identify, (nsid, cns, dma_addr), cmd),
        call_ensures(NvmeCommand::to_bytes, (&cmd,), b),
    ensures
        b@.len() == 64,
        b@[0] == 0x06,
        le32(b@, 4) == nsid,
        le64(b@, 24) == dma_addr,
        le32(b@, 40) == cns,
        forall|i: int|
            1 <= i < 4 || 8 <= i < 24 || 32 <= i < 40 || 44 <= i < 64 ==> #[trigger] b@[i] == 0,
{
    law_identify_command_in_memory(identify_to(nsid, cns, dma_addr), &cmd, b);
}

/// What the device reads in the command that asks for a feature: of which namespace, which one,
/// and the whole address that it goes to. All else is zero.
#[verifier::spinoff_prover]
#[verifier::rlimit(40)]
pub proof fn law_device_is_asked_for_a_feature(
    fid: u32,
    nsid: u32,
    dma_addr: u64,
    cmd: NvmeCommand,
    b: Vec<u8>,
)
    requires
        call_ensures(get_features, (fid, nsid, dma_addr), cmd),
        call_ensures(NvmeCommand::to_bytes, (&cmd,), b),
    ensures
        b@.len() == 64,
        b@[0] == 0x0a,
        le32(b@, 4) == nsid,
        le64(b@, 24) == dma_addr,
        le32(b@, 40) == fid,
        forall|i: int|
            1 <= i < 4 || 8 <= i < 24 || 32 <= i < 40 || 44 <= i < 64 ==> #[trigger] b@[i] == 0,
{
    law_features_command_in_memory(get_feature(fid, nsid, dma_addr), &cmd, b);
}

} // verus!
