//! The driver's side of the block layer: tag sets, and what is done with a request.
//!
//! A request is queued in steps. Each step says what the host is to do next; the host does it and
//! hands the result to the function that the step names.
use vstd::prelude::*;

use crate::defs::{NvmeCommand, NvmeCommon, NvmeCompletion, NvmeOpcode, NvmeRw};
use crate::prp::{
    byte_addr, first_span, gapless, law_plan_reaches_every_byte, lemma_list_in_order,
    lemma_pointers_of_any_request, map_prps, own_pages, pages_before, signed, to_signed, total,
    walkable, PrpPlan, ScatterList, CTRL_PAGE_SIZE, MAX_SG,
};
use crate::queue::{outcome, Completed};
use crate::wire::{
    at_their_places, law_common_command_in_memory, le16, le32, le64, lemma_bytes_at_their_places,
};

verus! {

/// The status of a request that went well.
pub const BLK_STS_OK: u8 = 0;

/// The namespace that requests go to.
pub const NSID: u32 = 1;

/// The depth of a request queue.
pub const RQ_DEPTH: u32 = 1024;

/// After how many seconds a request has timed out.
pub const RQ_TIMEOUT_SECS: u32 = 30;

/// Bytes in a sector of the block layer.
pub const SECTOR_SIZE: u32 = 512;

/// Which functions a tag set hands its requests to.
#[derive(Clone, Copy, PartialEq, Eq, Structural, Debug)]
pub enum QueueKind {
    Admin,
    Io,
}

/// Which way data goes.
#[derive(Clone, Copy, PartialEq, Eq, Structural, Debug)]
pub enum DmaDirection {
    ToDevice,
    FromDevice,
}

/// The settings of a tag set.
#[derive(Clone, Copy, PartialEq, Eq, Structural, Debug)]
pub struct TagSet {
    pub ops: QueueKind,
    pub nr_hw_queues: u32,
    pub queue_depth: u32,
    pub timeout: u32,
    pub numa_node: i32,
    pub cmd_size: u32,
    pub flags: u32,
}

/// What the host fixes for all tag sets.
#[derive(Clone, Copy, PartialEq, Eq, Structural, Debug)]
pub struct BlkParams {
    /// Timer ticks in a second.
    pub hz: u32,
    /// The size of the memory that goes with a request.
    pub pdu_size: u32,
    /// The flag of a tag set without a scheduler.
    pub no_sched: u32,
}

impl BlkParams {
    /// A timeout can be given in ticks.
    pub open spec fn wf(self) -> bool {
        RQ_TIMEOUT_SECS * self.hz <= u32::MAX
    }
}

/// A tag set.
#[derive(Clone, Copy, PartialEq, Eq, Structural, Debug)]
pub struct Tag {
    pub set: TagSet,
}

impl Tag {
    /// The settings of a new tag set.
    pub open spec fn fresh(ops: QueueKind) -> Tag {
        Tag {
            set: TagSet {
                ops,
                nr_hw_queues: 0,
                queue_depth: 0,
                timeout: 0,
                numa_node: 0,
                cmd_size: 0,
                flags: 0,
            },
        }
    }

    /// A tag set whose requests go to `T`, with nothing else set.
    pub fn new<T: BlkRqOps>() -> (tag: Tag)
        ensures
            tag == Tag::fresh(T::serves()),
    {
        Tag {
            set: TagSet {
                ops: T::kind(),
                nr_hw_queues: 0,
                queue_depth: 0,
                timeout: 0,
                numa_node: 0,
                cmd_size: 0,
                flags: 0,
            },
        }
    }
}

/// The queue that the block layer puts requests in.
#[derive(Clone, Copy, PartialEq, Eq, Structural, Debug)]
pub struct RequestQueue {
    pub ops: QueueKind,
}

impl RequestQueue {
    /// The settings that a tag set has once it has a request queue.
    pub open spec fn settings(set: TagSet, params: BlkParams) -> TagSet {
        TagSet {
            ops: set.ops,
            nr_hw_queues: 1,
            queue_depth: RQ_DEPTH,
            timeout: (RQ_TIMEOUT_SECS * params.hz) as u32,
            numa_node: (-1) as i32,
            cmd_size: params.pdu_size,
            flags: params.no_sched,
        }
    }

    /// Sets up a tag set for a request queue. The host then allocates the tags and the queue.
    pub fn new(tag: &mut Tag, params: &BlkParams) -> (rq: RequestQueue)
        requires
            params.wf(),
        ensures
            final(tag).set == RequestQueue::settings(old(tag).set, *params),
            rq.ops == old(tag).set.ops,
    {
        tag.set.nr_hw_queues = 1;
        tag.set.queue_depth = RQ_DEPTH;
        tag.set.timeout = RQ_TIMEOUT_SECS * params.hz;
        tag.set.numa_node = -1;
        tag.set.cmd_size = params.pdu_size;
        tag.set.flags = params.no_sched;
        RequestQueue { ops: tag.set.ops }
    }
}

/// The driver's memory that goes with a request.
#[derive(Clone, Copy, Debug)]
pub struct Pdu {
    pub cmnd: NvmeCommand,
    pub status: u16,
    pub result: u32,
    /// How many segments are mapped for the device.
    pub nents: i32,
    pub sg: [ScatterList; MAX_SG],
}

impl Default for Pdu {
    fn default() -> (p: Pdu)
        ensures
            p.cmnd == NvmeCommand::Common(NvmeCommon::zero()),
            p.status == 0,
            p.result == 0,
            p.nents == 0,
            forall|i: int|
                0 <= i < MAX_SG ==> #[trigger] p.sg@[i] == (ScatterList {
                    dma_address: 0,
                    dma_length: 0,
                }),
    {
        let empty = ScatterList { dma_address: 0, dma_length: 0 };
        let sg: [ScatterList; MAX_SG] = [
            empty,
            empty,
            empty,
            empty,
            empty,
            empty,
            empty,
            empty,
            empty,
            empty,
            empty,
            empty,
            empty,
            empty,
            empty,
            empty,
        ];
        Pdu {
            cmnd: NvmeCommand::Common(NvmeCommon::default()),
            status: 0,
            result: 0,
            nents: 0,
            sg,
        }
    }
}

impl Pdu {
    /// Notes how the request came out.
    pub fn record(&mut self, done: &Completed)
        ensures
            *final(self) == (Pdu { result: done.result, status: done.status, ..*old(self) }),
    {
        self.result = done.result;
        self.status = done.status;
    }
}

/// Hands a completion over to the request that its tag leads to, with the memory `found`: whether
/// the request is then to be completed, which is once for each completion. Where the tag leads to
/// no request, nothing is written and nothing is to be completed.
pub fn deliver(found: Option<&mut Pdu>, done: &Completed) -> (complete: bool)
    ensures
        complete == (found is Some),
        found matches Some(p) ==> *final(p) == (Pdu {
            result: done.result,
            status: done.status,
            ..*p
        }),
{
    match found {
        Some(pdu) => {
            pdu.record(done);
            true
        },
        None => false,
    }
}

/// What the driver reads of a request.
#[derive(Clone, Copy, PartialEq, Eq, Structural, Debug)]
pub struct Request {
    pub tag: i32,
    pub cmd_flags: u32,
    /// The data to be moved, in bytes.
    pub payload_bytes: u32,
    /// The size on the disk, in bytes.
    pub bytes: u32,
    /// The first sector on the disk.
    pub pos: u64,
    pub nr_phys_segments: u16,
}

/// A read or write whose segments are yet to be mapped.
#[derive(Clone, Copy, PartialEq, Eq, Structural, Debug)]
pub struct PendingIo {
    pub rw: NvmeRw,
    /// The data to be moved, in bytes.
    pub length: i32,
    pub dir: DmaDirection,
}

/// What is to be done next with a request that is being queued.
#[derive(Debug)]
pub enum QueueStep {
    /// Put the command in the submission queue and, if `bell`, ring its doorbell. The request is
    /// then queued; the block layer is answered with `status`.
    Submit { cmd: NvmeCommand, bell: bool, status: u8 },
    /// Map the `segments` segments of the request for the device, then go on with
    /// [`BlkIoOps::segments_mapped`].
    MapSegments { io: PendingIo, segments: u32 },
    /// Allocate `bytes` bytes that the device can read and put `entries` at their start, then go
    /// on with [`BlkIoOps::list_allocated`].
    AllocList { rw: NvmeRw, bytes: usize, entries: Vec<u64> },
}

/// Segments that are to be unmapped.
#[derive(Clone, Copy, PartialEq, Eq, Structural, Debug)]
pub struct Unmap {
    pub nents: i32,
    pub dir: DmaDirection,
}

/// What is to be done with a request that is complete.
#[derive(Clone, Copy, PartialEq, Eq, Structural, Debug)]
pub struct CompleteStep {
    /// The segments to unmap first, if any.
    pub unmap: Option<Unmap>,
    /// The status to end the request with.
    pub status: u8,
}

/// What the block layer asks of a driver.
pub trait BlkRqOps {
    /// The kind of tag set that these functions belong to.
    spec fn serves() -> QueueKind;

    fn kind() -> (k: QueueKind)
        ensures
            k == Self::serves(),
    ;

    /// What setting up a request answers.
    spec fn request_code() -> i32;

    fn init_request() -> (r: i32)
        ensures
            r == Self::request_code(),
    ;

    /// What setting up a hardware queue answers.
    spec fn hctx_code() -> i32;

    fn init_hctx() -> (r: i32)
        ensures
            r == Self::hctx_code(),
    ;

    /// The request is one that can be queued.
    spec fn accepts(rq: Request) -> bool;

    /// Queueing `rq`, with the memory `pdu`, starts with `step` and leaves `after`.
    spec fn queued(pdu: Pdu, rq: Request, op_bits: u32, after: Pdu, step: QueueStep) -> bool;

    /// Starts to queue a request. `op_bits` is the host's mask for the operation in the flags.
    fn queue_rq(pdu: &mut Pdu, rq: &Request, op_bits: u32) -> (step: QueueStep)
        requires
            Self::accepts(*rq),
        ensures
            Self::queued(*old(pdu), *rq, op_bits, *final(pdu), step),
    ;

    /// How a request with the memory `pdu` is ended.
    spec fn finished(pdu: Pdu) -> CompleteStep;

    /// Ends a request.
    fn complete(pdu: &Pdu) -> (step: CompleteStep)
        ensures
            step == Self::finished(*pdu),
    ;
}

/// The functions of a driver in the form in which a tag set holds them.
pub struct Adapter<T: BlkRqOps>(T);

impl<T: BlkRqOps> Adapter<T> {
    pub fn init_request() -> (r: i32)
        ensures
            r == T::request_code(),
    {
        T::init_request()
    }

    pub fn init_hctx() -> (r: i32)
        ensures
            r == T::hctx_code(),
    {
        T::init_hctx()
    }

    pub fn queue_rq(pdu: &mut Pdu, rq: &Request, op_bits: u32) -> (step: QueueStep)
        requires
            T::accepts(*rq),
        ensures
            T::queued(*old(pdu), *rq, op_bits, *final(pdu), step),
    {
        T::queue_rq(pdu, rq, op_bits)
    }

    pub fn complete(pdu: &Pdu) -> (step: CompleteStep)
        ensures
            step == T::finished(*pdu),
    {
        T::complete(pdu)
    }
}

/// Requests that carry a command of their own for the admin queue.
pub struct BlkAdminOps;

impl BlkRqOps for BlkAdminOps {
    open spec fn serves() -> QueueKind {
        QueueKind::Admin
    }

    fn kind() -> (k: QueueKind) {
        QueueKind::Admin
    }

    open spec fn request_code() -> i32 {
        0
    }

    fn init_request() -> (r: i32) {
        0
    }

    open spec fn hctx_code() -> i32 {
        0
    }

    fn init_hctx() -> (r: i32) {
        0
    }

    open spec fn accepts(rq: Request) -> bool {
        true
    }

    /// The command in the request's memory is submitted as it is.
    open spec fn queued(
        pdu: Pdu,
        rq: Request,
        op_bits: u32,
        after: Pdu,
        step: QueueStep,
    ) -> bool {
        &&& after == pdu
        &&& step == (QueueStep::Submit { cmd: pdu.cmnd, bell: true, status: BLK_STS_OK })
    }

    fn queue_rq(pdu: &mut Pdu, rq: &Request, op_bits: u32) -> (step: QueueStep) {
        QueueStep::Submit { cmd: pdu.cmnd, bell: true, status: BLK_STS_OK }
    }

    open spec fn finished(pdu: Pdu) -> CompleteStep {
        CompleteStep { unmap: None, status: BLK_STS_OK }
    }

    fn complete(pdu: &Pdu) -> (step: CompleteStep) {
        CompleteStep { unmap: None, status: BLK_STS_OK }
    }
}

/// The identifier of the command of a request: the lower half of its tag.
pub open spec fn command_id(tag: i32) -> u16 {
    (tag as int % 0x1_0000) as u16
}

/// The identifier of the command of the request with the tag `tag`.
pub fn id_of_tag(tag: i32) -> (id: u16)
    ensures
        id == command_id(tag),
{
    assert(tag >= 0 ==> tag as u16 == tag as u32 % 0x1_0000) by (bit_vector);
    assert(tag < 0 ==> tag as u16 == (tag + 0x8000_0000) % 0x1_0000) by (bit_vector);
    tag as u16
}

/// Requests that read and write the disk.
pub struct BlkIoOps;

/// The lowest bit of the operation is set.
pub open spec fn op_is_odd(cmd_flags: u32, op_bits: u32) -> bool {
    op_bits % 2 == 1 && cmd_flags % 2 == 1
}

/// Which way the data of a request goes.
pub open spec fn direction(rq: Request, op_bits: u32) -> DmaDirection {
    if op_is_odd(rq.cmd_flags, op_bits) {
        DmaDirection::ToDevice
    } else {
        DmaDirection::FromDevice
    }
}

/// The operation that goes with a direction.
pub open spec fn operation(dir: DmaDirection) -> NvmeOpcode {
    match dir {
        DmaDirection::ToDevice => NvmeOpcode::Read,
        DmaDirection::FromDevice => NvmeOpcode::Write,
    }
}

/// The command for a request, without its data pointers.
pub open spec fn io_command(rq: Request, op_bits: u32) -> NvmeRw {
    NvmeRw {
        opcode: operation(direction(rq, op_bits)).spec_code(),
        command_id: command_id(rq.tag),
        nsid: NSID,
        slba: rq.pos,
        length: ((rq.bytes as int / SECTOR_SIZE as int - 1) % 0x1_0000) as u16,
        ..NvmeRw::zero()
    }
}

impl BlkRqOps for BlkIoOps {
    open spec fn serves() -> QueueKind {
        QueueKind::Io
    }

    fn kind() -> (k: QueueKind) {
        QueueKind::Io
    }

    open spec fn request_code() -> i32 {
        0
    }

    fn init_request() -> (r: i32) {
        0
    }

    open spec fn hctx_code() -> i32 {
        0
    }

    fn init_hctx() -> (r: i32) {
        0
    }

    /// The request has a sector or more.
    open spec fn accepts(rq: Request) -> bool {
        rq.bytes >= SECTOR_SIZE
    }

    /// A request without segments is submitted at once; of any other one the segments are mapped
    /// first. No segment is mapped yet.
    open spec fn queued(
        pdu: Pdu,
        rq: Request,
        op_bits: u32,
        after: Pdu,
        step: QueueStep,
    ) -> bool {
        &&& after == (Pdu { nents: 0, ..pdu })
        &&& step == if rq.nr_phys_segments == 0 {
            QueueStep::Submit {
                cmd: NvmeCommand::Rw(io_command(rq, op_bits)),
                bell: true,
                status: BLK_STS_OK,
            }
        } else {
            QueueStep::MapSegments {
                io: PendingIo {
                    rw: io_command(rq, op_bits),
                    length: signed(rq.payload_bytes) as i32,
                    dir: direction(rq, op_bits),
                },
                segments: rq.nr_phys_segments as u32,
            }
        }
    }

    fn queue_rq(pdu: &mut Pdu, rq: &Request, op_bits: u32) -> (step: QueueStep) {
        pdu.nents = 0;
        let length: i32 = to_signed(rq.payload_bytes);
        let cmd_flags: u32 = rq.cmd_flags;
        assert((op_bits & cmd_flags) & 1 == 1 <==> op_bits % 2 == 1 && cmd_flags % 2 == 1)
            by (bit_vector);
        let dir = if (op_bits & cmd_flags) & 1 == 1 {
            DmaDirection::ToDevice
        } else {
            DmaDirection::FromDevice
        };
        let opcode = match dir {
            DmaDirection::ToDevice => NvmeOpcode::Read,
            DmaDirection::FromDevice => NvmeOpcode::Write,
        };
        let bytes: u32 = rq.bytes;
        assert(bytes >> 9 == bytes / 512) by (bit_vector);
        let blocks: u32 = (bytes >> 9) - 1;
        assert(blocks as u16 == blocks % 0x1_0000) by (bit_vector);
        let rw = NvmeRw {
            opcode: opcode.code(),
            command_id: id_of_tag(rq.tag),
            nsid: NSID,
            slba: rq.pos,
            length: blocks as u16,
            ..NvmeRw::default()
        };
        if rq.nr_phys_segments >= 1 {
            QueueStep::MapSegments {
                io: PendingIo { rw, length, dir },
                segments: rq.nr_phys_segments as u32,
            }
        } else {
            QueueStep::Submit { cmd: NvmeCommand::Rw(rw), bell: true, status: BLK_STS_OK }
        }
    }

    /// Segments that were mapped are unmapped.
    open spec fn finished(pdu: Pdu) -> CompleteStep {
        CompleteStep {
            unmap: if pdu.nents > 0 {
                Some(Unmap { nents: pdu.nents, dir: DmaDirection::FromDevice })
            } else {
                None
            },
            status: BLK_STS_OK,
        }
    }

    fn complete(pdu: &Pdu) -> (step: CompleteStep) {
        let unmap = if pdu.nents > 0 {
            Some(Unmap { nents: pdu.nents, dir: DmaDirection::FromDevice })
        } else {
            None
        };
        CompleteStep { unmap, status: BLK_STS_OK }
    }
}

/// The step after the segments of `io` came out as `sg`: the command gets its data pointers, and
/// is submitted unless it needs a list first.
pub open spec fn mapped_step(io: PendingIo, sg: Seq<ScatterList>, step: QueueStep) -> bool {
    match step {
        QueueStep::Submit { cmd, bell, status } => {
            &&& bell
            &&& status == BLK_STS_OK
            &&& cmd matches NvmeCommand::Rw(rw)
            &&& rw == (NvmeRw { prp1: rw.prp1, prp2: rw.prp2, ..io.rw })
            &&& PrpPlan::Direct { prp1: rw.prp1, prp2: rw.prp2 }.describes(sg, io.length as int)
        },
        QueueStep::AllocList { rw, bytes, entries } => {
            &&& bytes == 8 * MAX_SG
            &&& rw == (NvmeRw { prp1: rw.prp1, ..io.rw })
            &&& PrpPlan::List { prp1: rw.prp1, entries }.describes(sg, io.length as int)
        },
        QueueStep::MapSegments { io: _, segments: _ } => false,
    }
}

impl BlkIoOps {
    /// Goes on with a request after its segments were mapped: `mapped` of them, which the device
    /// finds as `sg` says.
    pub fn segments_mapped(
        pdu: &mut Pdu,
        io: &PendingIo,
        mapped: u32,
        sg: &[ScatterList; MAX_SG],
    ) -> (step: QueueStep)
        requires
            walkable(sg@, io.length as int),
        ensures
            *final(pdu) == (Pdu { nents: signed(mapped) as i32, sg: *sg, ..*old(pdu) }),
            mapped_step(*io, sg@, step),
    {
        pdu.sg = *sg;
        pdu.nents = to_signed(mapped);
        let plan = map_prps(sg, io.length).unwrap();
        match plan {
            PrpPlan::Direct { prp1, prp2 } => {
                let rw = NvmeRw { prp1, prp2, ..io.rw };
                QueueStep::Submit { cmd: NvmeCommand::Rw(rw), bell: true, status: BLK_STS_OK }
            },
            PrpPlan::List { prp1, entries } => {
                let rw = NvmeRw { prp1, ..io.rw };
                QueueStep::AllocList { rw, bytes: 8 * MAX_SG, entries }
            },
        }
    }

    /// Goes on with a request after its list was written, which the device finds at `prp_dma`.
    pub fn list_allocated(rw: &NvmeRw, prp_dma: u64) -> (step: QueueStep)
        ensures
            step == (QueueStep::Submit {
                cmd: NvmeCommand::Rw(NvmeRw { prp2: prp_dma, ..*rw }),
                bell: true,
                status: BLK_STS_OK,
            }),
    {
        QueueStep::Submit {
            cmd: NvmeCommand::Rw(NvmeRw { prp2: prp_dma, ..*rw }),
            bell: true,
            status: BLK_STS_OK,
        }
    }
}

/// The memory of a request that carries the command `cmd` for the admin queue: the command as it
/// is, but with the identifier of the request.
pub open spec fn carrying(pdu: Pdu, cmd: NvmeCommand, tag: i32) -> Pdu {
    Pdu {
        cmnd: NvmeCommand::Common(NvmeCommon { command_id: command_id(tag), ..cmd.common() }),
        ..pdu
    }
}

/// Puts a command for the admin queue in the memory of the request that is to carry it, which has
/// the tag `tag`.
pub fn submit_sync_command(pdu: &mut Pdu, cmd: &NvmeCommand, tag: i32)
    ensures
        *final(pdu) == carrying(*old(pdu), *cmd, tag),
{
    let common = cmd.as_common();
    pdu.cmnd = NvmeCommand::Common(NvmeCommon { command_id: id_of_tag(tag), ..common });
}

/// What is to be done next to have a command carried out on the admin queue.
#[derive(Clone, Copy, PartialEq, Eq, Structural, Debug)]
pub enum SyncStep {
    /// Allocate a request, then go on with [`SyncCommand::request_allocated`].
    AllocRequest,
    /// Have the request carried out and wait for it, then go on with [`SyncCommand::executed`].
    /// How it came out is not looked at.
    Execute,
    /// Free the request, then go on with [`SyncCommand::freed`].
    Free,
    /// Nothing is left to do.
    Done,
}

impl SyncStep {
    /// The step that comes next.
    pub open spec fn next(self) -> SyncStep {
        match self {
            SyncStep::AllocRequest => SyncStep::Execute,
            SyncStep::Execute => SyncStep::Free,
            SyncStep::Free => SyncStep::Done,
            SyncStep::Done => SyncStep::Done,
        }
    }
}

/// A command that is being carried out on the admin queue.
#[derive(Clone, Copy, PartialEq, Eq, Structural, Debug)]
pub struct SyncCommand {
    pub cmd: NvmeCommand,
    pub step: SyncStep,
}

impl SyncCommand {
    /// Starts to have a command carried out.
    pub fn new(cmd: NvmeCommand) -> (sync: SyncCommand)
        ensures
            sync == (SyncCommand { cmd, step: SyncStep::AllocRequest }),
    {
        SyncCommand { cmd, step: SyncStep::AllocRequest }
    }

    /// Goes on when there is a request for the command, with the memory `pdu` and the tag `tag`:
    /// the request gets the command before it is carried out.
    pub fn request_allocated(&mut self, pdu: &mut Pdu, tag: i32)
        requires
            old(self).step == SyncStep::AllocRequest,
        ensures
            *final(self) == (SyncCommand { step: old(self).step.next(), ..*old(self) }),
            *final(pdu) == carrying(*old(pdu), old(self).cmd, tag),
    {
        submit_sync_command(pdu, &self.cmd, tag);
        self.step = SyncStep::Execute;
    }

    /// Goes on when the request was carried out.
    pub fn executed(&mut self)
        requires
            old(self).step == SyncStep::Execute,
        ensures
            *final(self) == (SyncCommand { step: old(self).step.next(), ..*old(self) }),
    {
        self.step = SyncStep::Free;
    }

    /// Goes on when the request was freed.
    pub fn freed(&mut self)
        requires
            old(self).step == SyncStep::Free,
        ensures
            *final(self) == (SyncCommand { step: old(self).step.next(), ..*old(self) }),
    {
        self.step = SyncStep::Done;
    }
}

/// The request for a command on the admin queue is allocated first, carried out after that, and
/// freed at last, each of them once; then nothing is left to do.
pub proof fn law_admin_request_runs_once(steps: Seq<SyncStep>, i: int)
    requires
        0 <= i < steps.len(),
        steps[0] == SyncStep::AllocRequest,
        forall|j: int| 0 < j < steps.len() ==> #[trigger] steps[j] == steps[j - 1].next(),
    ensures
        steps[i] == SyncStep::AllocRequest <==> i == 0,
        steps[i] == SyncStep::Execute <==> i == 1,
        steps[i] == SyncStep::Free <==> i == 2,
        steps[i] == SyncStep::Done <==> i >= 3,
    decreases i,
{
    if i > 0 {
        law_admin_request_runs_once(steps, i - 1);
        assert(steps[i] == steps[i - 1].next());
    }
}

/// A command that a request carries is the one that the admin queue gets when the request is
/// queued, but for its identifier.
pub proof fn law_carried_command_is_submitted(
    pdu: Pdu,
    cmd: NvmeCommand,
    tag: i32,
    rq: Request,
    op_bits: u32,
    after: Pdu,
    step: QueueStep,
)
    requires
        BlkAdminOps::queued(carrying(pdu, cmd, tag), rq, op_bits, after, step),
    ensures
        step matches QueueStep::Submit { cmd: sent, bell, status } && bell && status
            == BLK_STS_OK && sent.common() == (NvmeCommon {
            command_id: command_id(tag),
            ..cmd.common()
        }),
{
}

/// The completion of a command finds back to its request: the device repeats the identifier of
/// the command, and the identifier gives the tag. Tags are below the depth of the request queue,
/// which is far below what an identifier can hold.
pub proof fn law_completion_finds_its_request(tag: i32, cqe: NvmeCompletion)
    requires
        0 <= tag < 0x1_0000,
        cqe.command_id == command_id(tag),
    ensures
        outcome(cqe).tag == tag,
{
}

/// Every tag that a request queue hands out is one that an identifier can hold.
pub proof fn law_queue_tags_fit_identifiers(set: TagSet, params: BlkParams, tag: i32)
    requires
        0 <= tag < RequestQueue::settings(set, params).queue_depth,
    ensures
        0 <= tag < 0x1_0000,
        command_id(tag) == tag,
{
}

/// A request of whole sectors, of as many as a command can count, is put to the device as the
/// sectors from its position on, of its whole length.
pub proof fn law_command_covers_the_request(rq: Request, op_bits: u32)
    requires
        rq.bytes as int % SECTOR_SIZE as int == 0,
        SECTOR_SIZE <= rq.bytes <= 0x1_0000 * SECTOR_SIZE,
    ensures
        io_command(rq, op_bits).slba == rq.pos,
        (io_command(rq, op_bits).length + 1) * SECTOR_SIZE == rq.bytes,
{
}

/// The data pointers that a step settles.
pub open spec fn pointers(step: QueueStep) -> PrpPlan {
    match step {
        QueueStep::Submit { cmd: NvmeCommand::Rw(rw), bell: _, status: _ } => PrpPlan::Direct {
            prp1: rw.prp1,
            prp2: rw.prp2,
        },
        QueueStep::AllocList { rw, bytes: _, entries } => PrpPlan::List { prp1: rw.prp1, entries },
        _ => arbitrary(),
    }
}

/// When the segments of a request are mapped without a gap and its pages fit the pointers and the
/// list, the device finds every byte of its data where it is.
pub proof fn law_mapped_data_is_reached(
    io: PendingIo,
    sg: Seq<ScatterList>,
    step: QueueStep,
    count: int,
    k: int,
)
    requires
        mapped_step(io, sg, step),
        gapless(sg, count),
        io.length == total(sg, 0, count),
        io.length <= first_span(sg) + MAX_SG * CTRL_PAGE_SIZE,
        0 <= k < io.length,
    ensures
        pointers(step).locates(k) == byte_addr(sg, 0, k),
{
    law_plan_reaches_every_byte(sg, count, io.length as int, pointers(step), k);
}

/// What a request had mapped is what is unmapped when it is complete, however it came out; one
/// that had nothing mapped has nothing unmapped, also where its memory was used before.
pub proof fn law_complete_unmaps_what_was_mapped(
    pdu: Pdu,
    rq: Request,
    op_bits: u32,
    queued: Pdu,
    step: QueueStep,
    mapped: u32,
    sg: [ScatterList; MAX_SG],
    done: Completed,
)
    requires
        BlkIoOps::queued(pdu, rq, op_bits, queued, step),
    ensures
        ({
            let ended = Pdu { result: done.result, status: done.status, ..queued };
            BlkIoOps::finished(ended).unmap is None
        }),
        ({
            let after = Pdu { nents: signed(mapped) as i32, sg, ..queued };
            let ended = Pdu { result: done.result, status: done.status, ..after };
            BlkIoOps::finished(ended).unmap == if 0 < mapped < 0x8000_0000 {
                Some(Unmap { nents: mapped as i32, dir: DmaDirection::FromDevice })
            } else {
                None
            }
        }),
{
}

/// A tag set has a request queue with these settings, whatever it had before: one hardware queue,
/// 1024 tags, thirty seconds in ticks as its timeout, any node, the memory and the flag that the
/// host gives. Its requests go where they went before, and so do those of the queue.
pub proof fn law_request_queue_has_its_settings(
    tag: &mut Tag,
    params: &BlkParams,
    rq: RequestQueue,
)
    requires
        30 * params.hz <= u32::MAX,
        call_ensures(RequestQueue::new, (tag, params), rq),
    ensures
        call_requires(RequestQueue::new, (tag, params)),
        final(tag).set.nr_hw_queues == 1,
        final(tag).set.queue_depth == 1024,
        final(tag).set.timeout == 30 * params.hz,
        final(tag).set.numa_node == -1,
        final(tag).set.cmd_size == params.pdu_size,
        final(tag).set.flags == params.no_sched,
        final(tag).set.ops == old(tag).set.ops,
        rq.ops == old(tag).set.ops,
{
}

/// A new tag set hands its requests to the functions that it is made for, and has nothing else
/// set.
pub proof fn law_new_tag_sets_are_empty(admin: Tag, io: Tag)
    requires
        call_ensures(Tag::new::<BlkAdminOps>, (), admin),
        call_ensures(Tag::new::<BlkIoOps>, (), io),
    ensures
        admin.set.ops == QueueKind::Admin,
        io.set.ops == QueueKind::Io,
        forall|set: TagSet|
            #![trigger set.ops]
            set == admin.set || set == io.set ==> {
                &&& set.nr_hw_queues == 0
                &&& set.queue_depth == 0
                &&& set.timeout == 0
                &&& set.numa_node == 0
                &&& set.cmd_size == 0
                &&& set.flags == 0
            },
{
}

/// Setting up a request or a hardware queue always goes well: the answer is zero for both kinds of
/// requests, asked directly or through the tag set.
pub proof fn law_setup_always_goes_well(r: i32)
    requires
        ({
            ||| call_ensures(BlkAdminOps::init_request, (), r)
            ||| call_ensures(BlkAdminOps::init_hctx, (), r)
            ||| call_ensures(BlkIoOps::init_request, (), r)
            ||| call_ensures(BlkIoOps::init_hctx, (), r)
            ||| call_ensures(Adapter::<BlkAdminOps>::init_request, (), r)
            ||| call_ensures(Adapter::<BlkAdminOps>::init_hctx, (), r)
            ||| call_ensures(Adapter::<BlkIoOps>::init_request, (), r)
            ||| call_ensures(Adapter::<BlkIoOps>::init_hctx, (), r)
        }),
    ensures
        r == 0,
{
}

/// The two kinds of requests tell themselves apart.
pub proof fn law_kinds_tell_themselves_apart(admin: QueueKind, io: QueueKind)
    requires
        call_ensures(BlkAdminOps::kind, (), admin),
        call_ensures(BlkIoOps::kind, (), io),
    ensures
        admin == QueueKind::Admin,
        io == QueueKind::Io,
{
}

/// The memory of a request that nothing happened to yet holds a command that is all zero, no
/// result, and no segments.
#[verifier::spinoff_prover]
#[verifier::rlimit(40)]
pub proof fn law_fresh_memory_is_empty(pdu: Pdu, b: Vec<u8>)
    requires
        call_ensures(<Pdu as Default>::default, (), pdu),
        call_ensures(NvmeCommand::to_bytes, (&pdu.cmnd,), b),
    ensures
        pdu.status == 0,
        pdu.result == 0,
        pdu.nents == 0,
        forall|i: int|
            0 <= i < 16 ==> (#[trigger] pdu.sg@[i]).dma_address == 0 && pdu.sg@[i].dma_length == 0,
        b@[0] == 0,
        b@[1] == 0,
        le16(b@, 2) == 0,
        le32(b@, 4) == 0,
        le32(b@, 8) == 0,
        le32(b@, 12) == 0,
        le64(b@, 16) == 0,
        le64(b@, 24) == 0,
        le64(b@, 32) == 0,
        le32(b@, 40) == 0,
        le32(b@, 44) == 0,
        le32(b@, 48) == 0,
        le32(b@, 52) == 0,
        le32(b@, 56) == 0,
        le32(b@, 60) == 0,
{
    law_common_command_in_memory(pdu.cmnd->Common_0, &pdu.cmnd, b);
}

/// A completion that is delivered is in the memory of its request, result and status as they were
/// handed over, and nothing else of that memory changes. The request is to be completed exactly if
/// there is one.
pub proof fn law_delivered_completion_is_recorded(pdu: &mut Pdu, done: &Completed, complete: bool)
    requires
        call_ensures(deliver, (Some(pdu), done), complete) || (complete && call_ensures(
            Pdu::record,
            (pdu, done),
            (),
        )),
    ensures
        complete,
        final(pdu).result == done.result,
        final(pdu).status == done.status,
        final(pdu).cmnd == old(pdu).cmnd,
        final(pdu).nents == old(pdu).nents,
        final(pdu).sg == old(pdu).sg,
{
}

/// A completion without a request completes nothing.
pub proof fn law_completion_without_a_request_completes_nothing(done: &Completed, complete: bool)
    requires
        call_ensures(deliver, (None, done), complete),
    ensures
        !complete,
{
}

/// The identifier of a command and the tag of its request differ by a multiple of what an
/// identifier can count; for a tag that an identifier can hold they are the same.
pub proof fn law_identifier_is_the_tag(tag: i32, id: u16)
    requires
        call_ensures(id_of_tag, (tag,), id),
    ensures
        (tag - id) % 0x1_0000 == 0,
        0 <= tag < 0x1_0000 ==> id == tag,
{
}

/// Queueing a request that reads or writes gives a command for just this request: in namespace 1,
/// with the identifier of the request, from the position of the request on and as long as it is,
/// less one and as far as the command can count. The lowest bit of the operation decides on which
/// of the two commands it is, and which way the data goes. The command has no pointers yet, and
/// nothing else. Without segments it is submitted at once and rings the doorbell, which goes well;
/// with segments these are mapped first, all of them, for the whole data. Of the memory of the
/// request only the count of mapped segments changes: there are none.
#[verifier::spinoff_prover]
#[verifier::rlimit(40)]
pub proof fn law_request_becomes_its_command(
    pdu: &mut Pdu,
    rq: &Request,
    op_bits: u32,
    step: QueueStep,
    rw: NvmeRw,
)
    requires
        rq.bytes >= 512,
        call_ensures(BlkIoOps::queue_rq, (pdu, rq, op_bits), step) || call_ensures(
            Adapter::<BlkIoOps>::queue_rq,
            (pdu, rq, op_bits),
            step,
        ),
        match step {
            QueueStep::Submit { cmd, bell: _, status: _ } => cmd == NvmeCommand::Rw(rw),
            QueueStep::MapSegments { io, segments: _ } => io.rw == rw,
            _ => true,
        },
    ensures
        call_requires(BlkIoOps::queue_rq, (pdu, rq, op_bits)),
        call_requires(Adapter::<BlkIoOps>::queue_rq, (pdu, rq, op_bits)),
        rw.opcode == if op_bits & rq.cmd_flags & 1 == 1 { 2int } else { 1int },
        (rq.tag - rw.command_id) % 0x1_0000 == 0,
        rw.nsid == 1,
        rw.slba == rq.pos,
        (rq.bytes as int / 512 - 1 - rw.length) % 0x1_0000 == 0,
        rq.bytes <= 0x1_0000 * 512 && rq.bytes % 512 == 0 ==> (rw.length + 1) * 512 == rq.bytes,
        rw.flags == 0,
        rw.metadata == 0,
        rw.prp1 == 0,
        rw.prp2 == 0,
        rw.control == 0,
        rw.dsmgmt == 0,
        rw.reftag == 0,
        rw.apptag == 0,
        rw.appmask == 0,
        match step {
            QueueStep::Submit { cmd, bell, status } => {
                &&& rq.nr_phys_segments == 0
                &&& cmd is Rw
                &&& bell
                &&& status == 0
            },
            QueueStep::MapSegments { io, segments } => {
                &&& rq.nr_phys_segments > 0
                &&& segments == rq.nr_phys_segments
                &&& (rq.payload_bytes - io.length) % 0x1_0000_0000 == 0
                &&& io.dir == DmaDirection::ToDevice <==> rw.opcode == 2
                &&& io.dir == DmaDirection::FromDevice <==> rw.opcode == 1
            },
            _ => false,
        },
        final(pdu).nents == 0,
        final(pdu).cmnd == old(pdu).cmnd,
        final(pdu).status == old(pdu).status,
        final(pdu).result == old(pdu).result,
        final(pdu).sg == old(pdu).sg,
{
    let cmd_flags = rq.cmd_flags;
    assert(op_bits & cmd_flags & 1 == 1 <==> op_bits % 2 == 1 && cmd_flags % 2 == 1)
        by (bit_vector);
}

/// From a request with segments to what the device gets: whatever way it takes, over a list or
/// not, in the end a command is submitted, which goes well and rings the doorbell, and it is the
/// one for this request: its operation, identifier, namespace, first sector and length are those
/// of the request, and it has nothing else but its pointers. The first pointer is where the data
/// starts; with a list, the second one is where the list is.
#[verifier::spinoff_prover]
#[verifier::rlimit(40)]
pub proof fn law_submitted_command_is_that_of_the_request(
    pdu: &mut Pdu,
    rq: &Request,
    op_bits: u32,
    io: PendingIo,
    segments: u32,
    memory: &mut Pdu,
    mapped: u32,
    sg: &[ScatterList; MAX_SG],
    step: QueueStep,
    prp_dma: u64,
    last: QueueStep,
)
    requires
        rq.bytes >= 512,
        call_ensures(
            BlkIoOps::queue_rq,
            (pdu, rq, op_bits),
            QueueStep::MapSegments { io, segments },
        ),
        call_ensures(BlkIoOps::segments_mapped, (memory, &io, mapped, sg), step),
        match step {
            QueueStep::AllocList { rw, bytes: _, entries: _ } => call_ensures(
                BlkIoOps::list_allocated,
                (&rw, prp_dma),
                last,
            ),
            _ => last == step,
        },
    ensures
        ({
            &&& last matches QueueStep::Submit { cmd, bell, status }
            &&& bell
            &&& status == 0
            &&& cmd matches NvmeCommand::Rw(sent)
            &&& sent.opcode == if op_bits & rq.cmd_flags & 1 == 1 { 2int } else { 1int }
            &&& (rq.tag - sent.command_id) % 0x1_0000 == 0
            &&& sent.nsid == 1
            &&& sent.slba == rq.pos
            &&& (rq.bytes as int / 512 - 1 - sent.length) % 0x1_0000 == 0
            &&& rq.bytes <= 0x1_0000 * 512 && rq.bytes % 512 == 0 ==> (sent.length + 1) * 512
                == rq.bytes
            &&& sent.prp1 == sg@[0].dma_address
            &&& step is AllocList ==> sent.prp2 == prp_dma
            &&& sent.flags == 0
            &&& sent.metadata == 0
            &&& sent.control == 0
            &&& sent.dsmgmt == 0
            &&& sent.reftag == 0
            &&& sent.apptag == 0
            &&& sent.appmask == 0
        }),
{
    law_request_becomes_its_command(
        pdu,
        rq,
        op_bits,
        QueueStep::MapSegments { io, segments },
        io.rw,
    );
}

/// Mapping the segments of a request changes only the pointers of its command, and in the memory
/// of the request only the segments and their count.
pub proof fn law_mapping_sets_only_the_pointers(
    pdu: &mut Pdu,
    io: &PendingIo,
    mapped: u32,
    sg: &[ScatterList; MAX_SG],
    step: QueueStep,
    rw: NvmeRw,
)
    requires
        call_ensures(BlkIoOps::segments_mapped, (pdu, io, mapped, sg), step),
        match step {
            QueueStep::Submit { cmd, bell: _, status: _ } => cmd == NvmeCommand::Rw(rw),
            QueueStep::AllocList { rw: listed, bytes: _, entries: _ } => listed == rw,
            _ => true,
        },
    ensures
        step !is MapSegments,
        rw.opcode == io.rw.opcode,
        rw.flags == io.rw.flags,
        rw.command_id == io.rw.command_id,
        rw.nsid == io.rw.nsid,
        rw.metadata == io.rw.metadata,
        rw.slba == io.rw.slba,
        rw.length == io.rw.length,
        rw.control == io.rw.control,
        rw.dsmgmt == io.rw.dsmgmt,
        rw.reftag == io.rw.reftag,
        rw.apptag == io.rw.apptag,
        rw.appmask == io.rw.appmask,
        step is AllocList ==> rw.prp2 == io.rw.prp2,
        final(pdu).sg == *sg,
        (mapped - final(pdu).nents) % 0x1_0000_0000 == 0,
        final(pdu).cmnd == old(pdu).cmnd,
        final(pdu).status == old(pdu).status,
        final(pdu).result == old(pdu).result,
{
}

/// A list changes only the second pointer of a command, to where the list is.
pub proof fn law_list_sets_only_the_second_pointer(rw: &NvmeRw, prp_dma: u64, step: QueueStep)
    requires
        call_ensures(BlkIoOps::list_allocated, (rw, prp_dma), step),
    ensures
        ({
            &&& step matches QueueStep::Submit { cmd, bell, status }
            &&& bell
            &&& status == 0
            &&& cmd matches NvmeCommand::Rw(sent)
            &&& sent.prp2 == prp_dma
            &&& sent.opcode == rw.opcode
            &&& sent.flags == rw.flags
            &&& sent.command_id == rw.command_id
            &&& sent.nsid == rw.nsid
            &&& sent.metadata == rw.metadata
            &&& sent.prp1 == rw.prp1
            &&& sent.slba == rw.slba
            &&& sent.length == rw.length
            &&& sent.control == rw.control
            &&& sent.dsmgmt == rw.dsmgmt
            &&& sent.reftag == rw.reftag
            &&& sent.apptag == rw.apptag
            &&& sent.appmask == rw.appmask
        }),
{
}

/// Where the data pointers of a request come from: they are those that [`map_prps`] gives for the
/// segments and the length of the data. A list of them fits the memory that is asked for, of
/// sixteen pointers.
pub proof fn law_mapped_request_has_the_data_pointers(
    pdu: &mut Pdu,
    io: &PendingIo,
    mapped: u32,
    sg: &[ScatterList; MAX_SG],
    step: QueueStep,
)
    requires
        call_ensures(BlkIoOps::segments_mapped, (pdu, io, mapped, sg), step),
    ensures
        ({
            let start = sg@[0].dma_address;
            let span = 4096 - start as int % 4096;
            match step {
                QueueStep::Submit { cmd, bell, status } => {
                    &&& bell
                    &&& status == 0
                    &&& cmd matches NvmeCommand::Rw(rw)
                    &&& io.length <= span + 4096
                    &&& rw.prp1 == start
                    &&& rw.prp2 == if io.length <= span {
                        start as int
                    } else if span < sg@[0].dma_length < 0x8000_0000 {
                        start + span
                    } else {
                        sg@[1].dma_address as int
                    }
                },
                QueueStep::AllocList { rw, bytes, entries } => {
                    &&& io.length > span + 4096
                    &&& rw.prp1 == start
                    &&& bytes == 128
                    &&& io.length - span <= 16 * 4096 ==> 0 <= 4096 * entries@.len() - (io.length
                        - span) < 4096
                    &&& io.length - span > 16 * 4096 ==> entries@.len() == 16
                },
                _ => false,
            }
        }),
{
    lemma_pointers_of_any_request(sg@, io.length as int, pointers(step));
}

/// The list of a request holds the pages of its segments one after the other, whatever the
/// segments are like: first what the first segment has after its first page, then page `m` of
/// segment `i` after all pages of the segments before.
pub proof fn law_mapped_list_holds_the_pages_in_order(
    pdu: &mut Pdu,
    io: &PendingIo,
    mapped: u32,
    sg: &[ScatterList; MAX_SG],
    rw: NvmeRw,
    bytes: usize,
    entries: Vec<u64>,
    i: int,
    m: int,
)
    requires
        call_ensures(
            BlkIoOps::segments_mapped,
            (pdu, io, mapped, sg),
            QueueStep::AllocList { rw, bytes, entries },
        ),
        0 <= i < 16,
        0 <= m,
    ensures
        i == 0 && m < pages_before(sg@, 1) && m < entries@.len() ==> entries@[m]
            == sg@[0].dma_address + (4096 - sg@[0].dma_address as int % 4096) + 4096 * m,
        i > 0 && m < own_pages(sg@[i].dma_length) && pages_before(sg@, i) + m < entries@.len()
            ==> entries@[pages_before(sg@, i) + m] == sg@[i].dma_address + 4096 * m,
{
    lemma_list_in_order(sg@, io.length as int, PrpPlan::List { prp1: rw.prp1, entries }, i, m);
}

/// When the segments of a request are mapped without a gap and its pages fit the pointers and the
/// list, the device, which takes pages to be of 4096 bytes, finds every byte of its data where it
/// is.
pub proof fn law_device_finds_the_data_of_a_request(
    pdu: &mut Pdu,
    io: &PendingIo,
    mapped: u32,
    sg: &[ScatterList; MAX_SG],
    step: QueueStep,
    count: int,
    k: int,
)
    requires
        call_ensures(BlkIoOps::segments_mapped, (pdu, io, mapped, sg), step),
        gapless(sg@, count),
        io.length == total(sg@, 0, count),
        io.length <= 4096 - sg@[0].dma_address as int % 4096 + 16 * 4096,
        0 <= k < io.length,
    ensures
        ({
            let span = 4096 - sg@[0].dma_address as int % 4096;
            match step {
                QueueStep::Submit { cmd, bell: _, status: _ } => {
                    &&& cmd matches NvmeCommand::Rw(rw)
                    &&& byte_addr(sg@, 0, k) == if k < span {
                        rw.prp1 + k
                    } else {
                        rw.prp2 + (k - span)
                    }
                },
                QueueStep::AllocList { rw, bytes: _, entries } => byte_addr(sg@, 0, k) == if k
                    < span {
                    rw.prp1 + k
                } else {
                    entries@[(k - span) / 4096] + (k - span) % 4096
                },
                _ => false,
            }
        }),
{
    law_mapped_data_is_reached(*io, sg@, step, count, k);
}

/// The life of a request that reads or writes: however it came out, when it is complete, just as
/// many segments are unmapped as were mapped for it, for data from the device, and none if none
/// were or if the count is beyond 2 to the 31st; then it is ended, well. Directly or through the
/// tag set, this is the same.
pub proof fn law_request_gives_back_what_it_had_mapped(
    pdu: &mut Pdu,
    rq: &Request,
    op_bits: u32,
    first: QueueStep,
    memory: &mut Pdu,
    io: &PendingIo,
    mapped: u32,
    sg: &[ScatterList; MAX_SG],
    step: QueueStep,
    noted: &mut Pdu,
    done: &Completed,
    complete: bool,
    end: CompleteStep,
)
    requires
        call_ensures(BlkIoOps::queue_rq, (pdu, rq, op_bits), first),
        *old(memory) == *final(pdu),
        *old(noted) == *final(memory),
        if rq.nr_phys_segments > 0 {
            call_ensures(BlkIoOps::segments_mapped, (memory, io, mapped, sg), step)
        } else {
            *final(memory) == *old(memory) && mapped == 0
        },
        call_ensures(deliver, (Some(noted), done), complete),
        call_ensures(BlkIoOps::complete, (&*final(noted),), end) || call_ensures(
            Adapter::<BlkIoOps>::complete,
            (&*final(noted),),
            end,
        ),
    ensures
        0 < mapped < 0x8000_0000 ==> (end.unmap matches Some(u) && u.nents == mapped && u.dir
            == DmaDirection::FromDevice),
        !(0 < mapped < 0x8000_0000) ==> end.unmap is None,
        end.status == 0,
{
}

/// A request that reads or writes unmaps its segments exactly if there are any, as many as its
/// memory says, whatever else is in there.
pub proof fn law_complete_goes_by_the_count_of_segments(pdu: &Pdu, end: CompleteStep)
    requires
        call_ensures(BlkIoOps::complete, (pdu,), end) || call_ensures(
            Adapter::<BlkIoOps>::complete,
            (pdu,),
            end,
        ),
    ensures
        pdu.nents > 0 ==> (end.unmap matches Some(u) && u.nents == pdu.nents && u.dir
            == DmaDirection::FromDevice),
        pdu.nents <= 0 ==> end.unmap is None,
        end.status == 0,
{
}

/// A request for the admin queue submits the command in its memory as it is and rings the
/// doorbell, which goes well; it changes nothing of its memory, has nothing mapped that it would
/// unmap, and is ended well.
pub proof fn law_admin_request_submits_its_command(
    pdu: &mut Pdu,
    rq: &Request,
    op_bits: u32,
    step: QueueStep,
    end: CompleteStep,
)
    requires
        call_ensures(BlkAdminOps::queue_rq, (pdu, rq, op_bits), step) || call_ensures(
            Adapter::<BlkAdminOps>::queue_rq,
            (pdu, rq, op_bits),
            step,
        ),
        call_ensures(BlkAdminOps::complete, (&*final(pdu),), end) || call_ensures(
            Adapter::<BlkAdminOps>::complete,
            (&*final(pdu),),
            end,
        ),
    ensures
        call_requires(BlkAdminOps::queue_rq, (pdu, rq, op_bits)),
        call_requires(Adapter::<BlkAdminOps>::queue_rq, (pdu, rq, op_bits)),
        step matches QueueStep::Submit { cmd, bell, status } && cmd == old(pdu).cmnd && bell
            && status == 0,
        *final(pdu) == *old(pdu),
        end.unmap is None,
        end.status == 0,
{
}

/// From a command to what the admin queue gets: byte by byte the command, but with the lower half
/// of the tag of its request as its identifier. Nothing else of the memory of the request changes.
#[verifier::spinoff_prover]
#[verifier::rlimit(40)]
pub proof fn law_admin_queue_gets_the_command(
    cmd: &NvmeCommand,
    wanted: Vec<u8>,
    pdu: &mut Pdu,
    tag: i32,
    sync: &mut SyncCommand,
    sent: Vec<u8>,
)
    requires
        call_ensures(NvmeCommand::to_bytes, (cmd,), wanted),
        call_ensures(submit_sync_command, (pdu, cmd, tag), ()) || (old(sync).cmd == *cmd
            && call_ensures(SyncCommand::request_allocated, (sync, pdu, tag), ())),
        call_ensures(NvmeCommand::to_bytes, (&final(pdu).cmnd,), sent),
    ensures
        wanted@.len() == 64,
        sent@.len() == 64,
        sent@[0] == wanted@[0],
        sent@[1] == wanted@[1],
        (tag - le16(sent@, 2)) % 0x1_0000 == 0,
        le32(sent@, 4) == le32(wanted@, 4),
        le32(sent@, 8) == le32(wanted@, 8),
        le32(sent@, 12) == le32(wanted@, 12),
        le64(sent@, 16) == le64(wanted@, 16),
        le64(sent@, 24) == le64(wanted@, 24),
        le64(sent@, 32) == le64(wanted@, 32),
        le32(sent@, 40) == le32(wanted@, 40),
        le32(sent@, 44) == le32(wanted@, 44),
        le32(sent@, 48) == le32(wanted@, 48),
        le32(sent@, 52) == le32(wanted@, 52),
        le32(sent@, 56) == le32(wanted@, 56),
        le32(sent@, 60) == le32(wanted@, 60),
        final(pdu).status == old(pdu).status,
        final(pdu).result == old(pdu).result,
        final(pdu).nents == old(pdu).nents,
        final(pdu).sg == old(pdu).sg,
{
    lemma_bytes_at_their_places(cmd.common());
    lemma_bytes_at_their_places(final(pdu).cmnd.common());
    reveal(at_their_places);
}

/// A command on the admin queue goes from one step to the next in this order: a request is
/// allocated for it, carried out, and freed. The command itself stays as it was.
pub proof fn law_admin_command_goes_through_its_steps(
    cmd: NvmeCommand,
    start: SyncCommand,
    first: &mut SyncCommand,
    pdu: &mut Pdu,
    tag: i32,
    second: &mut SyncCommand,
    third: &mut SyncCommand,
)
    requires
        call_ensures(SyncCommand::new, (cmd,), start),
        *old(first) == start,
        call_ensures(SyncCommand::request_allocated, (first, pdu, tag), ()),
        *old(second) == *final(first),
        call_ensures(SyncCommand::executed, (second,), ()),
        *old(third) == *final(second),
        call_ensures(SyncCommand::freed, (third,), ()),
    ensures
        start.step == SyncStep::AllocRequest,
        start.cmd == cmd,
        call_requires(SyncCommand::request_allocated, (first, pdu, tag)),
        final(first).step == SyncStep::Execute,
        final(first).cmd == cmd,
        call_requires(SyncCommand::executed, (second,)),
        final(second).step == SyncStep::Free,
        final(second).cmd == cmd,
        call_requires(SyncCommand::freed, (third,)),
        final(third).step == SyncStep::Done,
        final(third).cmd == cmd,
{
}

/// A request can go on with its segments exactly where [`map_prps`] finds data pointers for them,
/// and it gets those.
pub proof fn law_mapping_follows_the_data_pointers(
    pdu: &mut Pdu,
    io: &PendingIo,
    mapped: u32,
    sg: &[ScatterList; MAX_SG],
    plan: Option<PrpPlan>,
    step: QueueStep,
)
    requires
        call_ensures(map_prps, (sg, io.length), plan),
        plan is Some,
        call_ensures(BlkIoOps::segments_mapped, (pdu, io, mapped, sg), step),
    ensures
        call_requires(BlkIoOps::segments_mapped, (pdu, io, mapped, sg)),
        match plan->0 {
            PrpPlan::Direct { prp1, prp2 } => {
                &&& step matches QueueStep::Submit { cmd, bell: _, status: _ }
                &&& cmd matches NvmeCommand::Rw(rw)
                &&& rw.prp1 == prp1
                &&& rw.prp2 == prp2
            },
            PrpPlan::List { prp1, entries } => {
                &&& step matches QueueStep::AllocList { rw, bytes: _, entries: listed }
                &&& rw.prp1 == prp1
                &&& listed@ =~= entries@
            },
        },
{
}

} // verus!
