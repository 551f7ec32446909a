//! Taking a device into use, step by step.
//!
//! At every stage there is one thing for the host to do. The host does it and says what came out;
//! that leads to the next stage.
use vstd::arithmetic::power2::pow2;
use vstd::prelude::*;

use crate::admin::{
    admin_setup, alloc_completion_queue, alloc_submission_queue, create_cq, create_sq, get_feature,
    get_features, identify, identify_to, lemma_sizes_are_those_of_the_depth, set_feature,
    set_queue_count, start_admin_queue,
};
use crate::defs::{
    BarOp, NvmeCommand, NvmeCreateCq, NvmeCreateSq, NvmeFeatures, NvmeIdNs, NvmeIdentify,
    FEAT_LBA_RANGE, NVME_FEAT_NUM_QUEUES,
};
use crate::disk::{
    disk_for, format_is_usable, has_usable_format, law_disk_is_as_large_as_its_namespace, plan_disk,
    Disk,
};
use crate::mq::{
    BlkAdminOps, BlkIoOps, BlkParams, QueueKind, RequestQueue, Tag, TagSet, NSID, RQ_TIMEOUT_SECS,
};
use crate::queue::{NvmeQueue, QueueParams, QueuePlace};

verus! {

/// How many interrupt vectors there are: one for each queue pair.
pub const IRQ_VECTORS: u32 = 2;

/// The device can use all addresses.
pub const DMA_MASK: u64 = 0xffff_ffff_ffff_ffff;

/// How much memory there is for identify data, and for the range types, in bytes.
pub const IDENTIFY_LEN: usize = 8192;

/// What is asked for as the number of queues.
pub const QUEUE_COUNT: u32 = 1;

/// Identify data: of a namespace.
pub const CNS_NAMESPACE: u32 = 0;

/// Identify data: of the controller.
pub const CNS_CONTROLLER: u32 = 1;

/// What the host fixes for a device.
#[derive(Clone, Copy, PartialEq, Eq, Structural, Debug)]
pub struct ProbeParams {
    /// How many entries each queue has.
    pub depth: u16,
    pub blk: BlkParams,
    /// The sector size of the block layer, as a power of two.
    pub sector_shift: u32,
    /// The major number of the disk.
    pub major: i32,
}

impl ProbeParams {
    /// Queues have entries, and a timeout can be given in ticks.
    pub open spec fn wf(self) -> bool {
        self.depth >= 1 && self.blk.wf()
    }
}

/// The registers of a device: where they are, and how many bytes.
#[derive(Clone, Copy, PartialEq, Eq, Structural, Debug)]
pub struct IoMem {
    pub offset: usize,
    pub size: usize,
}

/// The address of registers that the host has mapped to `addr`; 0, if it could not map them.
pub open spec fn mapped_at(addr: Option<usize>) -> usize {
    match addr {
        Some(ptr) => ptr,
        None => 0,
    }
}

/// The address of registers that the host was asked to map, from what came of it.
pub fn ioremap(addr: Option<usize>) -> (ptr: usize)
    ensures
        ptr == mapped_at(addr),
{
    match addr {
        Some(ptr) => ptr,
        None => 0,
    }
}

/// What the driver keeps of a device.
#[derive(Clone, Copy, PartialEq, Eq, Structural, Debug)]
pub struct NvmeData {
    pub admin_rq: RequestQueue,
    pub io_rq: RequestQueue,
    pub bar: IoMem,
    /// Where the registers are mapped; 0, if they could not be.
    pub bar_ptr: usize,
    pub db_stride: usize,
    pub admin_tag: Tag,
    pub io_tag: Tag,
}

/// What an interrupt works on.
#[derive(Clone, Copy, PartialEq, Eq, Structural, Debug)]
pub struct NvmeIrqData {
    pub tag: Tag,
    pub queue: NvmeQueue,
}

/// Why a device was not taken into use.
#[derive(Clone, Copy, PartialEq, Eq, Structural, Debug)]
pub enum ProbeError {
    /// The host could not do something, for the reason `errno`.
    Host { errno: i32 },
    /// The device has no region for its registers.
    NoResource,
}

/// How far a device has come.
#[derive(Clone, Copy, PartialEq, Eq, Structural, Debug)]
pub enum Stage {
    /// Find out which memory regions the device has.
    SelectBars,
    /// Claim them.
    RequestRegions,
    /// Turn memory access on.
    EnableMem,
    /// Let the device access memory.
    SetMaster,
    /// Get the interrupt vectors.
    AllocIrqVectors,
    /// Say which addresses the device can use.
    SetDmaMask,
    /// Say which addresses it can use for shared memory.
    SetCoherentMask,
    /// Take the region of the registers.
    TakeResource,
    /// Map the registers.
    MapBar,
    /// Allocate the tags of the admin queue.
    AllocAdminTags,
    /// Make the request queue of the admin queue.
    InitAdminQueue,
    /// Allocate the tags of the I/O queue.
    AllocIoTags,
    /// Allocate them once more, with the settings for a request queue.
    AllocIoTagsAgain,
    /// Make the request queue of the I/O queue.
    InitIoQueue,
    /// Make the admin queue pair.
    CreateAdminQueue,
    /// Make the I/O queue pair.
    CreateIoQueue,
    /// Attach both queue pairs to their request queues.
    AttachQueues,
    /// Register the interrupt of the admin queue.
    AdminIrq,
    /// Register the interrupt of the I/O queue.
    IoIrq,
    /// Make the admin queue known to the controller and start it.
    Configure,
    /// Ask the controller for queues.
    SetQueueCount,
    /// Create the I/O completion queue.
    CreateCq,
    /// Create the I/O submission queue.
    CreateSq,
    /// Keep both queue pairs.
    StoreQueues,
    /// Allocate memory for identify data.
    AllocIdentify,
    /// Allocate memory for the range types.
    AllocRange,
    /// Identify the controller.
    IdentifyController,
    /// Identify the namespace.
    IdentifyNamespace,
    /// Get the range types of the namespace.
    GetLbaRange,
    /// Allocate a disk.
    AllocDisk,
    /// Set the disk up.
    SetUpDisk,
    /// Announce the disk.
    AddDisk,
    /// Make what the host keeps of the device.
    BuildDeviceData,
    /// The device is in use.
    Finished,
    /// The device was given up.
    Failed { error: ProbeError },
}

/// What the host is to do.
#[derive(Clone, Copy, PartialEq, Eq, Debug)]
pub enum ProbeAction {
    SelectBars,
    RequestRegions { bars: i32 },
    EnableMem,
    SetMaster,
    AllocIrqVectors { min: u32, max: u32 },
    SetDmaMask { mask: u64 },
    SetCoherentMask { mask: u64 },
    TakeResource { index: usize },
    MapBar { bar: IoMem },
    /// Allocate tags. Whether that works is not looked at.
    AllocTags { set: TagSet },
    /// Make a request queue. Whether that works is not looked at.
    InitQueue { ops: QueueKind },
    CreateQueue { params: QueueParams },
    AttachQueues { admin: NvmeQueue, io: NvmeQueue },
    /// Register an interrupt, which may be shared, on one of the vectors.
    RegisterIrq { irq: NvmeIrqData, vector: u32 },
    /// Do what [`config_admin_queue`] says.
    Configure { depth: u16, queue: NvmeQueue },
    /// Have a command carried out on the admin queue, and wait for it.
    Submit { cmd: NvmeCommand },
    /// The same, and then read the identify data of the namespace, which the device has written
    /// to `handle`.
    SubmitAndRead { cmd: NvmeCommand, handle: u64 },
    StoreQueues { admin: NvmeQueue, io: NvmeQueue },
    AllocDma { bytes: usize },
    /// Allocate a disk whose requests go to the queue pair `queue`.
    AllocDisk { tags: TagSet, queue: NvmeQueue },
    /// Set up the disk that was allocated.
    SetUpDisk { disk: Disk },
    /// Announce the disk that was set up.
    AddDisk { disk: Disk },
    BuildDeviceData,
    /// Nothing is left to do.
    Finish,
    /// Answer with the error.
    Fail { error: ProbeError },
}

/// What came out of an action.
#[derive(Clone, Copy, Debug)]
pub enum ProbeEvent {
    /// It is done.
    Done,
    /// It could not be done.
    Refused { errno: i32 },
    /// The memory regions of the device.
    Bars { bars: i32 },
    /// The region of the registers.
    Resource { bar: IoMem },
    /// There is no such region.
    NoResource,
    /// Where the registers are mapped; none, if they could not be.
    MappedAt { addr: Option<usize> },
    /// Where a queue pair was put.
    QueueAt { place: QueuePlace },
    /// Where the device finds memory that was allocated.
    DmaAt { handle: u64 },
    /// The command is done, and the namespace has identified itself.
    Identified { ns: NvmeIdNs },
}

/// A device that is being taken into use.
#[derive(Clone, Copy, Debug)]
pub struct Probe {
    pub params: ProbeParams,
    pub stage: Stage,
    pub bars: i32,
    pub data: NvmeData,
    pub admin_queue: NvmeQueue,
    pub io_queue: NvmeQueue,
    pub id_dma_handle: u64,
    pub rt_dma_handle: u64,
    /// The namespace, if it has capacity.
    pub ns: Option<NvmeIdNs>,
    pub disk: Option<Disk>,
}

/// The admin queue pair.
pub open spec fn admin_params(depth: u16) -> QueueParams {
    QueueParams { qid: 0, q_depth: depth, cq_vector: 0, polled: false, doorbell: 0 }
}

/// The I/O queue pair.
pub open spec fn io_params(depth: u16) -> QueueParams {
    QueueParams { qid: 1, q_depth: depth, cq_vector: 1, polled: false, doorbell: 4 }
}

fn admin_queue_params(depth: u16) -> (params: QueueParams)
    ensures
        params == admin_params(depth),
{
    QueueParams { qid: 0, q_depth: depth, cq_vector: 0, polled: false, doorbell: 0 }
}

fn io_queue_params(depth: u16) -> (params: QueueParams)
    ensures
        params == io_params(depth),
{
    QueueParams { qid: 1, q_depth: depth, cq_vector: 1, polled: false, doorbell: 4 }
}

/// No place.
pub open spec fn nowhere() -> QueuePlace {
    QueuePlace { sq_dma_handle: 0, cq_dma_handle: 0, db_offset: 0 }
}

/// The tag set for I/O as it is allocated first, before it gets a request queue.
pub open spec fn first_io_tags(params: ProbeParams) -> TagSet {
    TagSet {
        ops: QueueKind::Io,
        nr_hw_queues: 1,
        queue_depth: params.depth as u32,
        timeout: (RQ_TIMEOUT_SECS * params.blk.hz) as u32,
        numa_node: (-1) as i32,
        cmd_size: params.blk.pdu_size,
        flags: 0,
    }
}

impl Stage {
    /// The place in the order of the stages.
    pub open spec fn rank(self) -> int {
        match self {
            Stage::SelectBars => 0,
            Stage::RequestRegions => 1,
            Stage::EnableMem => 2,
            Stage::SetMaster => 3,
            Stage::AllocIrqVectors => 4,
            Stage::SetDmaMask => 5,
            Stage::SetCoherentMask => 6,
            Stage::TakeResource => 7,
            Stage::MapBar => 8,
            Stage::AllocAdminTags => 9,
            Stage::InitAdminQueue => 10,
            Stage::AllocIoTags => 11,
            Stage::AllocIoTagsAgain => 12,
            Stage::InitIoQueue => 13,
            Stage::CreateAdminQueue => 14,
            Stage::CreateIoQueue => 15,
            Stage::AttachQueues => 16,
            Stage::AdminIrq => 17,
            Stage::IoIrq => 18,
            Stage::Configure => 19,
            Stage::SetQueueCount => 20,
            Stage::CreateCq => 21,
            Stage::CreateSq => 22,
            Stage::StoreQueues => 23,
            Stage::AllocIdentify => 24,
            Stage::AllocRange => 25,
            Stage::IdentifyController => 26,
            Stage::IdentifyNamespace => 27,
            Stage::GetLbaRange => 28,
            Stage::AllocDisk => 29,
            Stage::SetUpDisk => 30,
            Stage::AddDisk => 31,
            Stage::BuildDeviceData => 32,
            Stage::Finished => 33,
            Stage::Failed { error: _ } => 33,
        }
    }

    /// The host may refuse what it is to do at this stage.
    pub open spec fn may_be_refused(self) -> bool {
        match self {
            Stage::RequestRegions => true,
            Stage::EnableMem => true,
            Stage::AllocIrqVectors => true,
            Stage::SetDmaMask => true,
            Stage::SetCoherentMask => true,
            Stage::BuildDeviceData => true,
            _ => false,
        }
    }

    /// Nothing comes of this stage but that it is done.
    pub open spec fn is_plain(self) -> bool {
        match self {
            Stage::SelectBars => false,
            Stage::TakeResource => false,
            Stage::MapBar => false,
            Stage::CreateAdminQueue => false,
            Stage::CreateIoQueue => false,
            Stage::AllocIdentify => false,
            Stage::AllocRange => false,
            Stage::IdentifyNamespace => false,
            Stage::Finished => false,
            Stage::Failed { error: _ } => false,
            _ => true,
        }
    }

    /// The stage after a plain one.
    pub open spec fn following(self) -> Stage {
        match self {
            Stage::RequestRegions => Stage::EnableMem,
            Stage::EnableMem => Stage::SetMaster,
            Stage::SetMaster => Stage::AllocIrqVectors,
            Stage::AllocIrqVectors => Stage::SetDmaMask,
            Stage::SetDmaMask => Stage::SetCoherentMask,
            Stage::SetCoherentMask => Stage::TakeResource,
            Stage::AllocAdminTags => Stage::InitAdminQueue,
            Stage::InitAdminQueue => Stage::AllocIoTags,
            Stage::AllocIoTags => Stage::AllocIoTagsAgain,
            Stage::AllocIoTagsAgain => Stage::InitIoQueue,
            Stage::InitIoQueue => Stage::CreateAdminQueue,
            Stage::AttachQueues => Stage::AdminIrq,
            Stage::AdminIrq => Stage::IoIrq,
            Stage::IoIrq => Stage::Configure,
            Stage::Configure => Stage::SetQueueCount,
            Stage::SetQueueCount => Stage::CreateCq,
            Stage::CreateCq => Stage::CreateSq,
            Stage::CreateSq => Stage::StoreQueues,
            Stage::StoreQueues => Stage::AllocIdentify,
            Stage::IdentifyController => Stage::IdentifyNamespace,
            Stage::GetLbaRange => Stage::AllocDisk,
            Stage::AllocDisk => Stage::SetUpDisk,
            Stage::SetUpDisk => Stage::AddDisk,
            Stage::AddDisk => Stage::BuildDeviceData,
            Stage::BuildDeviceData => Stage::Finished,
            _ => self,
        }
    }

    fn next(self) -> (s: Stage)
        requires
            self.is_plain(),
        ensures
            s == self.following(),
    {
        match self {
            Stage::RequestRegions => Stage::EnableMem,
            Stage::EnableMem => Stage::SetMaster,
            Stage::SetMaster => Stage::AllocIrqVectors,
            Stage::AllocIrqVectors => Stage::SetDmaMask,
            Stage::SetDmaMask => Stage::SetCoherentMask,
            Stage::SetCoherentMask => Stage::TakeResource,
            Stage::AllocAdminTags => Stage::InitAdminQueue,
            Stage::InitAdminQueue => Stage::AllocIoTags,
            Stage::AllocIoTags => Stage::AllocIoTagsAgain,
            Stage::AllocIoTagsAgain => Stage::InitIoQueue,
            Stage::InitIoQueue => Stage::CreateAdminQueue,
            Stage::AttachQueues => Stage::AdminIrq,
            Stage::AdminIrq => Stage::IoIrq,
            Stage::IoIrq => Stage::Configure,
            Stage::Configure => Stage::SetQueueCount,
            Stage::SetQueueCount => Stage::CreateCq,
            Stage::CreateCq => Stage::CreateSq,
            Stage::CreateSq => Stage::StoreQueues,
            Stage::StoreQueues => Stage::AllocIdentify,
            Stage::IdentifyController => Stage::IdentifyNamespace,
            Stage::GetLbaRange => Stage::AllocDisk,
            Stage::AllocDisk => Stage::SetUpDisk,
            Stage::SetUpDisk => Stage::AddDisk,
            Stage::AddDisk => Stage::BuildDeviceData,
            Stage::BuildDeviceData => Stage::Finished,
            _ => self,
        }
    }
}

/// The steps that start the controller when a device is taken into use: those of
/// [`start_admin_queue`], without a wait for it to be ready.
pub fn config_admin_queue(depth: u16, queue: &NvmeQueue) -> (ops: Vec<BarOp>)
    requires
        depth >= 1,
    ensures
        ops@ == admin_setup(depth, *queue),
{
    start_admin_queue(depth, queue)
}

impl Probe {
    /// The settings are usable, both queue pairs have the depth that is asked for, and a namespace
    /// and a disk are there when they are needed.
    pub open spec fn wf(self) -> bool {
        &&& self.params.wf()
        &&& self.admin_queue.q_depth == self.params.depth
        &&& self.io_queue.q_depth == self.params.depth
        &&& self.stage == Stage::GetLbaRange || self.stage == Stage::AllocDisk ==> {
            &&& self.ns matches Some(ns)
            &&& ns.ncap != 0
        }
        &&& self.stage == Stage::SetUpDisk || self.stage == Stage::AddDisk ==> self.disk is Some
        &&& self.stage.rank() <= Stage::AllocDisk.rank() ==> self.disk is None
    }

    /// A device that nothing was done with yet.
    pub open spec fn start(params: ProbeParams) -> Probe {
        Probe {
            params,
            stage: Stage::SelectBars,
            bars: 0,
            data: NvmeData {
                admin_rq: RequestQueue { ops: QueueKind::Admin },
                io_rq: RequestQueue { ops: QueueKind::Io },
                bar: IoMem { offset: 0, size: 0 },
                bar_ptr: 0,
                db_stride: 0,
                admin_tag: Tag::fresh(QueueKind::Admin),
                io_tag: Tag::fresh(QueueKind::Io),
            },
            admin_queue: NvmeQueue::fresh(admin_params(params.depth), nowhere()),
            io_queue: NvmeQueue::fresh(io_params(params.depth), nowhere()),
            id_dma_handle: 0,
            rt_dma_handle: 0,
            ns: None,
            disk: None,
        }
    }

    /// Starts to take a device into use.
    pub fn new(params: ProbeParams) -> (probe: Probe)
        requires
            params.wf(),
        ensures
            probe == Probe::start(params),
            probe.wf(),
    {
        let place = QueuePlace { sq_dma_handle: 0, cq_dma_handle: 0, db_offset: 0 };
        Probe {
            params,
            stage: Stage::SelectBars,
            bars: 0,
            data: NvmeData {
                admin_rq: RequestQueue { ops: QueueKind::Admin },
                io_rq: RequestQueue { ops: QueueKind::Io },
                bar: IoMem { offset: 0, size: 0 },
                bar_ptr: 0,
                db_stride: 0,
                admin_tag: Tag::new::<BlkAdminOps>(),
                io_tag: Tag::new::<BlkIoOps>(),
            },
            admin_queue: NvmeQueue::new(&admin_queue_params(params.depth), &place),
            io_queue: NvmeQueue::new(&io_queue_params(params.depth), &place),
            id_dma_handle: 0,
            rt_dma_handle: 0,
            ns: None,
            disk: None,
        }
    }

    /// What the host is to do at this stage.
    pub open spec fn task(self) -> ProbeAction {
        match self.stage {
            Stage::SelectBars => ProbeAction::SelectBars,
            Stage::RequestRegions => ProbeAction::RequestRegions { bars: self.bars },
            Stage::EnableMem => ProbeAction::EnableMem,
            Stage::SetMaster => ProbeAction::SetMaster,
            Stage::AllocIrqVectors => ProbeAction::AllocIrqVectors {
                min: IRQ_VECTORS,
                max: IRQ_VECTORS,
            },
            Stage::SetDmaMask => ProbeAction::SetDmaMask { mask: DMA_MASK },
            Stage::SetCoherentMask => ProbeAction::SetCoherentMask { mask: DMA_MASK },
            Stage::TakeResource => ProbeAction::TakeResource { index: 0 },
            Stage::MapBar => ProbeAction::MapBar { bar: self.data.bar },
            Stage::AllocAdminTags => ProbeAction::AllocTags { set: self.data.admin_tag.set },
            Stage::InitAdminQueue => ProbeAction::InitQueue { ops: self.data.admin_rq.ops },
            Stage::AllocIoTags => ProbeAction::AllocTags { set: self.data.io_tag.set },
            Stage::AllocIoTagsAgain => ProbeAction::AllocTags { set: self.data.io_tag.set },
            Stage::InitIoQueue => ProbeAction::InitQueue { ops: self.data.io_rq.ops },
            Stage::CreateAdminQueue => ProbeAction::CreateQueue {
                params: admin_params(self.params.depth),
            },
            Stage::CreateIoQueue => ProbeAction::CreateQueue {
                params: io_params(self.params.depth),
            },
            Stage::AttachQueues => ProbeAction::AttachQueues {
                admin: self.admin_queue,
                io: self.io_queue,
            },
            Stage::AdminIrq => ProbeAction::RegisterIrq {
                irq: NvmeIrqData { tag: self.data.admin_tag, queue: self.admin_queue },
                vector: 0,
            },
            Stage::IoIrq => ProbeAction::RegisterIrq {
                irq: NvmeIrqData { tag: self.data.io_tag, queue: self.io_queue },
                vector: 1,
            },
            Stage::Configure => ProbeAction::Configure {
                depth: self.params.depth,
                queue: self.admin_queue,
            },
            Stage::SetQueueCount => ProbeAction::Submit {
                cmd: NvmeCommand::Features(set_feature(NVME_FEAT_NUM_QUEUES, QUEUE_COUNT)),
            },
            Stage::CreateCq => ProbeAction::Submit {
                cmd: NvmeCommand::CreateCq(create_cq(self.io_queue)),
            },
            Stage::CreateSq => ProbeAction::Submit {
                cmd: NvmeCommand::CreateSq(create_sq(self.io_queue)),
            },
            Stage::StoreQueues => ProbeAction::StoreQueues {
                admin: self.admin_queue,
                io: self.io_queue,
            },
            Stage::AllocIdentify => ProbeAction::AllocDma { bytes: IDENTIFY_LEN },
            Stage::AllocRange => ProbeAction::AllocDma { bytes: IDENTIFY_LEN },
            Stage::IdentifyController => ProbeAction::Submit {
                cmd: NvmeCommand::Identify(identify_to(0, CNS_CONTROLLER, self.id_dma_handle)),
            },
            Stage::IdentifyNamespace => ProbeAction::SubmitAndRead {
                cmd: NvmeCommand::Identify(identify_to(NSID, CNS_NAMESPACE, self.id_dma_handle)),
                handle: self.id_dma_handle,
            },
            Stage::GetLbaRange => ProbeAction::Submit {
                cmd: NvmeCommand::Features(get_feature(FEAT_LBA_RANGE, NSID, self.rt_dma_handle)),
            },
            Stage::AllocDisk => ProbeAction::AllocDisk {
                tags: self.data.io_tag.set,
                queue: self.io_queue,
            },
            Stage::SetUpDisk => ProbeAction::SetUpDisk { disk: self.disk->0 },
            Stage::AddDisk => ProbeAction::AddDisk { disk: self.disk->0 },
            Stage::BuildDeviceData => ProbeAction::BuildDeviceData,
            Stage::Finished => ProbeAction::Finish,
            Stage::Failed { error } => ProbeAction::Fail { error },
        }
    }

    /// What the host is to do at this stage.
    pub fn action(&self) -> (action: ProbeAction)
        requires
            self.wf(),
        ensures
            action == self.task(),
    {
        match self.stage {
            Stage::SelectBars => ProbeAction::SelectBars,
            Stage::RequestRegions => ProbeAction::RequestRegions { bars: self.bars },
            Stage::EnableMem => ProbeAction::EnableMem,
            Stage::SetMaster => ProbeAction::SetMaster,
            Stage::AllocIrqVectors => ProbeAction::AllocIrqVectors {
                min: IRQ_VECTORS,
                max: IRQ_VECTORS,
            },
            Stage::SetDmaMask => ProbeAction::SetDmaMask { mask: DMA_MASK },
            Stage::SetCoherentMask => ProbeAction::SetCoherentMask { mask: DMA_MASK },
            Stage::TakeResource => ProbeAction::TakeResource { index: 0 },
            Stage::MapBar => ProbeAction::MapBar { bar: self.data.bar },
            Stage::AllocAdminTags => ProbeAction::AllocTags { set: self.data.admin_tag.set },
            Stage::InitAdminQueue => ProbeAction::InitQueue { ops: self.data.admin_rq.ops },
            Stage::AllocIoTags => ProbeAction::AllocTags { set: self.data.io_tag.set },
            Stage::AllocIoTagsAgain => ProbeAction::AllocTags { set: self.data.io_tag.set },
            Stage::InitIoQueue => ProbeAction::InitQueue { ops: self.data.io_rq.ops },
            Stage::CreateAdminQueue => ProbeAction::CreateQueue {
                params: admin_queue_params(self.params.depth),
            },
            Stage::CreateIoQueue => ProbeAction::CreateQueue {
                params: io_queue_params(self.params.depth),
            },
            Stage::AttachQueues => ProbeAction::AttachQueues {
                admin: self.admin_queue,
                io: self.io_queue,
            },
            Stage::AdminIrq => ProbeAction::RegisterIrq {
                irq: NvmeIrqData { tag: self.data.admin_tag, queue: self.admin_queue },
                vector: 0,
            },
            Stage::IoIrq => ProbeAction::RegisterIrq {
                irq: NvmeIrqData { tag: self.data.io_tag, queue: self.io_queue },
                vector: 1,
            },
            Stage::Configure => ProbeAction::Configure {
                depth: self.params.depth,
                queue: self.admin_queue,
            },
            Stage::SetQueueCount => ProbeAction::Submit { cmd: set_queue_count(QUEUE_COUNT) },
            Stage::CreateCq => ProbeAction::Submit {
                cmd: alloc_completion_queue(&self.io_queue),
            },
            Stage::CreateSq => ProbeAction::Submit {
                cmd: alloc_submission_queue(&self.io_queue),
            },
            Stage::StoreQueues => ProbeAction::StoreQueues {
                admin: self.admin_queue,
                io: self.io_queue,
            },
            Stage::AllocIdentify => ProbeAction::AllocDma { bytes: IDENTIFY_LEN },
            Stage::AllocRange => ProbeAction::AllocDma { bytes: IDENTIFY_LEN },
            Stage::IdentifyController => ProbeAction::Submit {
                cmd: identify(0, CNS_CONTROLLER, self.id_dma_handle),
            },
            Stage::IdentifyNamespace => ProbeAction::SubmitAndRead {
                cmd: identify(NSID, CNS_NAMESPACE, self.id_dma_handle),
                handle: self.id_dma_handle,
            },
            Stage::GetLbaRange => ProbeAction::Submit {
                cmd: get_features(FEAT_LBA_RANGE, NSID, self.rt_dma_handle),
            },
            Stage::AllocDisk => ProbeAction::AllocDisk {
                tags: self.data.io_tag.set,
                queue: self.io_queue,
            },
            Stage::SetUpDisk => ProbeAction::SetUpDisk { disk: self.disk.unwrap() },
            Stage::AddDisk => ProbeAction::AddDisk { disk: self.disk.unwrap() },
            Stage::BuildDeviceData => ProbeAction::BuildDeviceData,
            Stage::Finished => ProbeAction::Finish,
            Stage::Failed { error } => ProbeAction::Fail { error },
        }
    }

    /// The event is an answer to what the host is to do at this stage.
    ///
    /// A disk can be set up only if its namespace has a format that can be used.
    pub open spec fn fits(self, event: ProbeEvent) -> bool {
        match event {
            ProbeEvent::Done => {
                &&& self.stage.is_plain()
                &&& self.stage == Stage::AllocDisk ==> has_usable_format(
                    self.ns->0,
                    self.params.sector_shift,
                )
            },
            ProbeEvent::Refused { errno: _ } => self.stage.may_be_refused(),
            ProbeEvent::Bars { bars: _ } => self.stage == Stage::SelectBars,
            ProbeEvent::Resource { bar: _ } => self.stage == Stage::TakeResource,
            ProbeEvent::NoResource => self.stage == Stage::TakeResource,
            ProbeEvent::MappedAt { addr: _ } => self.stage == Stage::MapBar,
            ProbeEvent::QueueAt { place: _ } => self.stage == Stage::CreateAdminQueue || self.stage
                == Stage::CreateIoQueue,
            ProbeEvent::DmaAt { handle: _ } => self.stage == Stage::AllocIdentify || self.stage
                == Stage::AllocRange,
            ProbeEvent::Identified { ns: _ } => self.stage == Stage::IdentifyNamespace,
        }
    }

    /// Whether the event is an answer to what the host is to do at this stage.
    pub fn accepts(&self, event: &ProbeEvent) -> (yes: bool)
        requires
            self.wf(),
        ensures
            yes == self.fits(*event),
    {
        let stage = self.stage;
        match *event {
            ProbeEvent::Done => match stage {
                Stage::SelectBars => false,
                Stage::TakeResource => false,
                Stage::MapBar => false,
                Stage::CreateAdminQueue => false,
                Stage::CreateIoQueue => false,
                Stage::AllocIdentify => false,
                Stage::AllocRange => false,
                Stage::IdentifyNamespace => false,
                Stage::Finished => false,
                Stage::Failed { error: _ } => false,
                Stage::AllocDisk => {
                    let ns = self.ns.unwrap();
                    format_is_usable(&ns, self.params.sector_shift)
                },
                _ => true,
            },
            ProbeEvent::Refused { errno: _ } => match stage {
                Stage::RequestRegions => true,
                Stage::EnableMem => true,
                Stage::AllocIrqVectors => true,
                Stage::SetDmaMask => true,
                Stage::SetCoherentMask => true,
                Stage::BuildDeviceData => true,
                _ => false,
            },
            ProbeEvent::Bars { bars: _ } => stage == Stage::SelectBars,
            ProbeEvent::Resource { bar: _ } => stage == Stage::TakeResource,
            ProbeEvent::NoResource => stage == Stage::TakeResource,
            ProbeEvent::MappedAt { addr: _ } => stage == Stage::MapBar,
            ProbeEvent::QueueAt { place: _ } => stage == Stage::CreateAdminQueue || stage
                == Stage::CreateIoQueue,
            ProbeEvent::DmaAt { handle: _ } => stage == Stage::AllocIdentify || stage
                == Stage::AllocRange,
            ProbeEvent::Identified { ns: _ } => stage == Stage::IdentifyNamespace,
        }
    }

    /// Where an event leads to.
    pub open spec fn after(self, event: ProbeEvent) -> Probe {
        match event {
            ProbeEvent::Done => {
                let next = Probe { stage: self.stage.following(), ..self };
                let blk = self.params.blk;
                match self.stage {
                    // The next stages need the tags for I/O, ...
                    Stage::InitAdminQueue => Probe {
                        data: NvmeData {
                            io_tag: Tag { set: first_io_tags(self.params) },
                            ..self.data
                        },
                        ..next
                    },
                    // ... those tags with their request queue, ...
                    Stage::AllocIoTags => Probe {
                        data: NvmeData {
                            io_tag: Tag {
                                set: RequestQueue::settings(self.data.io_tag.set, blk),
                            },
                            io_rq: RequestQueue { ops: self.data.io_tag.set.ops },
                            ..self.data
                        },
                        ..next
                    },
                    // ... and the disk.
                    Stage::AllocDisk => Probe {
                        disk: disk_for(
                            self.ns->0,
                            NSID,
                            self.params.major,
                            self.params.sector_shift,
                        ),
                        ..next
                    },
                    _ => next,
                }
            },
            ProbeEvent::Refused { errno } => Probe {
                stage: Stage::Failed { error: ProbeError::Host { errno } },
                ..self
            },
            ProbeEvent::Bars { bars } => Probe { stage: Stage::RequestRegions, bars, ..self },
            ProbeEvent::Resource { bar } => Probe {
                stage: Stage::MapBar,
                data: NvmeData { bar, ..self.data },
                ..self
            },
            ProbeEvent::NoResource => Probe {
                stage: Stage::Failed { error: ProbeError::NoResource },
                ..self
            },
            // The next stages need the tags of the admin queue.
            ProbeEvent::MappedAt { addr } => Probe {
                stage: Stage::AllocAdminTags,
                data: NvmeData {
                    bar_ptr: mapped_at(addr),
                    admin_tag: Tag {
                        set: RequestQueue::settings(
                            Tag::fresh(QueueKind::Admin).set,
                            self.params.blk,
                        ),
                    },
                    admin_rq: RequestQueue { ops: QueueKind::Admin },
                    ..self.data
                },
                ..self
            },
            ProbeEvent::QueueAt { place } => if self.stage == Stage::CreateAdminQueue {
                Probe {
                    stage: Stage::CreateIoQueue,
                    admin_queue: NvmeQueue::fresh(admin_params(self.params.depth), place),
                    ..self
                }
            } else {
                Probe {
                    stage: Stage::AttachQueues,
                    io_queue: NvmeQueue::fresh(io_params(self.params.depth), place),
                    ..self
                }
            },
            ProbeEvent::DmaAt { handle } => if self.stage == Stage::AllocIdentify {
                Probe { stage: Stage::AllocRange, id_dma_handle: handle, ..self }
            } else {
                Probe { stage: Stage::IdentifyController, rt_dma_handle: handle, ..self }
            },
            // A namespace without capacity gets no disk.
            ProbeEvent::Identified { ns } => Probe {
                stage: if ns.ncap == 0 {
                    Stage::BuildDeviceData
                } else {
                    Stage::GetLbaRange
                },
                ns: if ns.ncap == 0 {
                    None
                } else {
                    Some(ns)
                },
                ..self
            },
        }
    }

    /// Goes on after an event.
    pub fn advance(&mut self, event: &ProbeEvent)
        requires
            old(self).wf(),
            old(self).fits(*event),
        ensures
            *final(self) == old(self).after(*event),
            final(self).wf(),
    {
        match *event {
            ProbeEvent::Done => {
                match self.stage {
                    Stage::InitAdminQueue => {
                        let mut tag = Tag::new::<BlkIoOps>();
                        tag.set.nr_hw_queues = 1;
                        tag.set.queue_depth = self.params.depth as u32;
                        tag.set.timeout = RQ_TIMEOUT_SECS * self.params.blk.hz;
                        tag.set.numa_node = -1;
                        tag.set.cmd_size = self.params.blk.pdu_size;
                        self.data.io_tag = tag;
                    },
                    Stage::AllocIoTags => {
                        let mut tag = self.data.io_tag;
                        let rq = RequestQueue::new(&mut tag, &self.params.blk);
                        self.data.io_tag = tag;
                        self.data.io_rq = rq;
                    },
                    Stage::AllocDisk => {
                        let ns = self.ns.unwrap();
                        let shift: u32 = self.params.sector_shift;
                        self.disk = plan_disk(&ns, NSID, self.params.major, shift);
                    },
                    _ => {},
                }
                self.stage = self.stage.next();
            },
            ProbeEvent::Refused { errno } => {
                self.stage = Stage::Failed { error: ProbeError::Host { errno } };
            },
            ProbeEvent::Bars { bars } => {
                self.bars = bars;
                self.stage = Stage::RequestRegions;
            },
            ProbeEvent::Resource { bar } => {
                self.data.bar = bar;
                self.stage = Stage::MapBar;
            },
            ProbeEvent::NoResource => {
                self.stage = Stage::Failed { error: ProbeError::NoResource };
            },
            ProbeEvent::MappedAt { addr } => {
                self.data.bar_ptr = ioremap(addr);
                let mut tag = Tag::new::<BlkAdminOps>();
                let rq = RequestQueue::new(&mut tag, &self.params.blk);
                self.data.admin_tag = tag;
                self.data.admin_rq = rq;
                self.stage = Stage::AllocAdminTags;
            },
            ProbeEvent::QueueAt { place } => {
                if self.stage == Stage::CreateAdminQueue {
                    let params = admin_queue_params(self.params.depth);
                    self.admin_queue = NvmeQueue::new(&params, &place);
                    self.stage = Stage::CreateIoQueue;
                } else {
                    let params = io_queue_params(self.params.depth);
                    self.io_queue = NvmeQueue::new(&params, &place);
                    self.stage = Stage::AttachQueues;
                }
            },
            ProbeEvent::DmaAt { handle } => {
                if self.stage == Stage::AllocIdentify {
                    self.id_dma_handle = handle;
                    self.stage = Stage::AllocRange;
                } else {
                    self.rt_dma_handle = handle;
                    self.stage = Stage::IdentifyController;
                }
            },
            ProbeEvent::Identified { ns } => {
                if ns.ncap == 0 {
                    self.ns = None;
                    self.stage = Stage::BuildDeviceData;
                } else {
                    self.ns = Some(ns);
                    self.stage = Stage::GetLbaRange;
                }
            },
        }
    }
}

/// What the host answers when it refuses nothing.
pub struct Answers {
    pub bars: i32,
    pub bar: IoMem,
    pub addr: Option<usize>,
    pub admin: QueuePlace,
    pub io: QueuePlace,
    pub id_dma_handle: u64,
    pub rt_dma_handle: u64,
    pub ns: NvmeIdNs,
}

impl Answers {
    /// The answer to the task of the stage number `k`.
    pub open spec fn event(self, k: int) -> ProbeEvent {
        if k == Stage::SelectBars.rank() {
            ProbeEvent::Bars { bars: self.bars }
        } else if k == Stage::TakeResource.rank() {
            ProbeEvent::Resource { bar: self.bar }
        } else if k == Stage::MapBar.rank() {
            ProbeEvent::MappedAt { addr: self.addr }
        } else if k == Stage::CreateAdminQueue.rank() {
            ProbeEvent::QueueAt { place: self.admin }
        } else if k == Stage::CreateIoQueue.rank() {
            ProbeEvent::QueueAt { place: self.io }
        } else if k == Stage::AllocIdentify.rank() {
            ProbeEvent::DmaAt { handle: self.id_dma_handle }
        } else if k == Stage::AllocRange.rank() {
            ProbeEvent::DmaAt { handle: self.rt_dma_handle }
        } else if k == Stage::IdentifyNamespace.rank() {
            ProbeEvent::Identified { ns: self.ns }
        } else {
            ProbeEvent::Done
        }
    }

    /// How far a device is after `k` answers.
    pub open spec fn reached(self, params: ProbeParams, k: int) -> Probe
        decreases k,
    {
        if k <= 0 {
            Probe::start(params)
        } else {
            self.reached(params, k - 1).after(self.event(k - 1))
        }
    }

    /// What is known of a device at a stage: what the host has answered up to there, and what
    /// follows from that.
    pub open spec fn at(self, params: ProbeParams, stage: Stage) -> Probe {
        let start = Probe::start(params);
        Probe {
            params,
            stage,
            bars: if stage.rank() > Stage::SelectBars.rank() {
                self.bars
            } else {
                0
            },
            data: NvmeData {
                bar: if stage.rank() > Stage::TakeResource.rank() {
                    self.bar
                } else {
                    start.data.bar
                },
                bar_ptr: if stage.rank() > Stage::MapBar.rank() {
                    mapped_at(self.addr)
                } else {
                    0
                },
                admin_tag: if stage.rank() > Stage::MapBar.rank() {
                    Tag { set: RequestQueue::settings(start.data.admin_tag.set, params.blk) }
                } else {
                    start.data.admin_tag
                },
                io_tag: if stage.rank() > Stage::AllocIoTags.rank() {
                    Tag { set: RequestQueue::settings(first_io_tags(params), params.blk) }
                } else if stage.rank() > Stage::InitAdminQueue.rank() {
                    Tag { set: first_io_tags(params) }
                } else {
                    start.data.io_tag
                },
                ..start.data
            },
            admin_queue: if stage.rank() > Stage::CreateAdminQueue.rank() {
                NvmeQueue::fresh(admin_params(params.depth), self.admin)
            } else {
                start.admin_queue
            },
            io_queue: if stage.rank() > Stage::CreateIoQueue.rank() {
                NvmeQueue::fresh(io_params(params.depth), self.io)
            } else {
                start.io_queue
            },
            id_dma_handle: if stage.rank() > Stage::AllocIdentify.rank() {
                self.id_dma_handle
            } else {
                0
            },
            rt_dma_handle: if stage.rank() > Stage::AllocRange.rank() {
                self.rt_dma_handle
            } else {
                0
            },
            ns: if stage.rank() > Stage::IdentifyNamespace.rank() {
                Some(self.ns)
            } else {
                None
            },
            disk: if stage.rank() > Stage::AllocDisk.rank() {
                disk_for(self.ns, NSID, params.major, params.sector_shift)
            } else {
                None
            },
        }
    }
}

impl Stage {
    /// The stage before, when nothing is skipped.
    spec fn preceding(self) -> Stage {
        match self {
            Stage::RequestRegions => Stage::SelectBars,
            Stage::EnableMem => Stage::RequestRegions,
            Stage::SetMaster => Stage::EnableMem,
            Stage::AllocIrqVectors => Stage::SetMaster,
            Stage::SetDmaMask => Stage::AllocIrqVectors,
            Stage::SetCoherentMask => Stage::SetDmaMask,
            Stage::TakeResource => Stage::SetCoherentMask,
            Stage::MapBar => Stage::TakeResource,
            Stage::AllocAdminTags => Stage::MapBar,
            Stage::InitAdminQueue => Stage::AllocAdminTags,
            Stage::AllocIoTags => Stage::InitAdminQueue,
            Stage::AllocIoTagsAgain => Stage::AllocIoTags,
            Stage::InitIoQueue => Stage::AllocIoTagsAgain,
            Stage::CreateAdminQueue => Stage::InitIoQueue,
            Stage::CreateIoQueue => Stage::CreateAdminQueue,
            Stage::AttachQueues => Stage::CreateIoQueue,
            Stage::AdminIrq => Stage::AttachQueues,
            Stage::IoIrq => Stage::AdminIrq,
            Stage::Configure => Stage::IoIrq,
            Stage::SetQueueCount => Stage::Configure,
            Stage::CreateCq => Stage::SetQueueCount,
            Stage::CreateSq => Stage::CreateCq,
            Stage::StoreQueues => Stage::CreateSq,
            Stage::AllocIdentify => Stage::StoreQueues,
            Stage::AllocRange => Stage::AllocIdentify,
            Stage::IdentifyController => Stage::AllocRange,
            Stage::IdentifyNamespace => Stage::IdentifyController,
            Stage::GetLbaRange => Stage::IdentifyNamespace,
            Stage::AllocDisk => Stage::GetLbaRange,
            Stage::SetUpDisk => Stage::AllocDisk,
            Stage::AddDisk => Stage::SetUpDisk,
            Stage::BuildDeviceData => Stage::AddDisk,
            Stage::Finished => Stage::BuildDeviceData,
            _ => self,
        }
    }
}

/// An answer of a host that refuses nothing leads from one stage to the next one.
proof fn lemma_answer_leads_on(params: ProbeParams, a: Answers, stage: Stage)
    requires
        a.ns.ncap != 0,
        has_usable_format(a.ns, params.sector_shift),
        stage !is Failed,
        stage != Stage::SelectBars,
    ensures
        stage.preceding().rank() == stage.rank() - 1,
        stage.preceding() !is Failed,
        a.at(params, stage.preceding()).fits(a.event(stage.rank() - 1)),
        a.at(params, stage.preceding()).after(a.event(stage.rank() - 1)) == a.at(params, stage),
{
}

/// A host that refuses nothing, with a device whose namespace has capacity, is led through all
/// stages in their order until the device is in use: as many answers as there are stages in front
/// of a stage lead to that stage, with all that was answered known there.
pub proof fn law_probe_takes_a_device_into_use(params: ProbeParams, a: Answers, stage: Stage)
    requires
        params.wf(),
        a.ns.ncap != 0,
        has_usable_format(a.ns, params.sector_shift),
        stage !is Failed,
    ensures
        a.reached(params, stage.rank()) == a.at(params, stage),
        stage != Stage::Finished ==> a.at(params, stage).fits(a.event(stage.rank())),
    decreases stage.rank(),
{
    if stage != Stage::SelectBars {
        lemma_answer_leads_on(params, a, stage);
        law_probe_takes_a_device_into_use(params, a, stage.preceding());
    }
}

/// Of a device that is taken into use, the I/O queue pair is one and the same wherever it is
/// needed: it is the one that was made, that is attached to the request queue, that the interrupt
/// is registered for, that the controller creates, that is kept, and that the disk is allocated
/// with. The same holds of the admin queue pair, as far as it is needed.
pub proof fn law_queue_pairs_stay_the_same(params: ProbeParams, a: Answers)
    ensures
        ({
            let admin = NvmeQueue::fresh(admin_params(params.depth), a.admin);
            let io = NvmeQueue::fresh(io_params(params.depth), a.io);
            &&& a.at(params, Stage::AttachQueues).task() == (ProbeAction::AttachQueues {
                admin,
                io,
            })
            &&& a.at(params, Stage::AdminIrq).task() matches ProbeAction::RegisterIrq {
                irq,
                vector,
            } && irq.queue == admin && vector == admin.cq_vector
            &&& a.at(params, Stage::IoIrq).task() matches ProbeAction::RegisterIrq {
                irq,
                vector,
            } && irq.queue == io && vector == io.cq_vector
            &&& a.at(params, Stage::Configure).task() == (ProbeAction::Configure {
                depth: params.depth,
                queue: admin,
            })
            &&& a.at(params, Stage::CreateCq).task() == (ProbeAction::Submit {
                cmd: NvmeCommand::CreateCq(create_cq(io)),
            })
            &&& a.at(params, Stage::CreateSq).task() == (ProbeAction::Submit {
                cmd: NvmeCommand::CreateSq(create_sq(io)),
            })
            &&& a.at(params, Stage::StoreQueues).task() == (ProbeAction::StoreQueues { admin, io })
            &&& a.at(params, Stage::AllocDisk).task() matches ProbeAction::AllocDisk {
                tags: _,
                queue,
            } && queue == io
        }),
{
}

/// Every answer brings a device further, and only one skips anything: for a namespace without
/// capacity no disk is made. So no command is submitted before the controller was started with
/// its admin queue and both interrupts were registered, and no disk is announced before the I/O
/// queue was created.
pub proof fn law_stages_come_in_order(probe: Probe, event: ProbeEvent)
    requires
        probe.wf(),
        probe.fits(event),
    ensures
        probe.after(event).stage.rank() > probe.stage.rank(),
        probe.after(event).stage is Failed || probe.after(event).stage.rank() == probe.stage.rank()
            + 1 || {
            &&& probe.stage == Stage::IdentifyNamespace
            &&& event matches ProbeEvent::Identified { ns }
            &&& ns.ncap == 0
            &&& probe.after(event).disk is None
            &&& probe.after(event).stage == Stage::BuildDeviceData
        },
{
}

/// A device is given up at the first refusal, or when it has no registers, with that as the error;
/// nothing is done with it any more.
pub proof fn law_refusal_is_final(probe: Probe, event: ProbeEvent, later: ProbeEvent)
    requires
        probe.fits(event),
        event is Refused || event is NoResource,
    ensures
        probe.after(event).task() == (ProbeAction::Fail {
            error: match event {
                ProbeEvent::Refused { errno } => ProbeError::Host { errno },
                _ => ProbeError::NoResource,
            },
        }),
        !probe.after(event).fits(later),
{
}

/// A device in use needs nothing any more.
pub proof fn law_finished_is_final(probe: Probe, later: ProbeEvent)
    requires
        probe.stage == Stage::Finished,
    ensures
        probe.task() == ProbeAction::Finish,
        !probe.fits(later),
{
}

/// Commands are submitted only at stages after the start of the controller.
pub proof fn law_commands_come_after_the_start(probe: Probe)
    requires
        probe.task() is Submit || probe.task() is SubmitAndRead,
    ensures
        probe.stage.rank() > Stage::Configure.rank() > Stage::IoIrq.rank()
            > Stage::AdminIrq.rank(),
{
}

/// Registers are where the host has mapped them, at address zero if it could not.
pub proof fn law_registers_are_where_they_are_mapped(addr: Option<usize>, ptr: usize)
    requires
        call_ensures(ioremap, (addr,), ptr),
    ensures
        addr matches Some(mapped) ==> ptr == mapped,
        addr is None ==> ptr == 0,
{
}

/// When a device is taken into use, its controller is started by the same accesses as otherwise,
/// in the same order, only that the start is not waited for.
pub proof fn law_controller_is_started_without_a_wait(
    depth: u16,
    queue: &NvmeQueue,
    ops: Vec<BarOp>,
)
    requires
        depth >= 1,
        call_ensures(config_admin_queue, (depth, queue), ops),
    ensures
        call_requires(config_admin_queue, (depth, queue)),
        ops@.len() == 6,
        ops@[0] == (BarOp::Writel { word: 0, offset: 0x14 }),
        ops@[1] == BarOp::PollIdle,
        ops@[2] matches BarOp::Writel { word, offset } && offset == 0x24 && word % 0x1_0000 + 1
            == depth && word / 0x1_0000 + 1 == depth,
        ops@[3] == (BarOp::Writeq { quad: queue.sq_dma_handle, offset: 0x28 }),
        ops@[4] == (BarOp::Writeq { quad: queue.cq_dma_handle, offset: 0x30 }),
        ops@[5] matches BarOp::Writel { word, offset } && offset == 0x14 && word == 1 + 6
            * 0x1_0000 + 4 * 0x10_0000,
{
    lemma_sizes_are_those_of_the_depth(depth);
}

/// Which answers are accepted depends on what was asked for: each question that the host has to
/// tell something about takes that and nothing else; six of the others can be refused; all others
/// are just done. A disk can be set up only if the blocks of the format in use are no smaller than
/// a sector and less than 2 to the 64th times as large. When nothing is asked for any more, no
/// answer is accepted.
pub proof fn law_answers_belong_to_their_questions(
    probe: &Probe,
    action: ProbeAction,
    event: &ProbeEvent,
    yes: bool,
)
    requires
        probe.wf(),
        call_ensures(Probe::action, (probe,), action),
        call_ensures(Probe::accepts, (probe, event), yes),
    ensures
        *event is Bars ==> (yes <==> action is SelectBars),
        *event is Resource ==> (yes <==> action is TakeResource),
        *event is NoResource ==> (yes <==> action is TakeResource),
        *event is MappedAt ==> (yes <==> action is MapBar),
        *event is QueueAt ==> (yes <==> action is CreateQueue),
        *event is DmaAt ==> (yes <==> action is AllocDma),
        *event is Identified ==> (yes <==> action is SubmitAndRead),
        *event is Refused ==> (yes <==> {
            ||| action is RequestRegions
            ||| action is EnableMem
            ||| action is AllocIrqVectors
            ||| action is SetDmaMask
            ||| action is SetCoherentMask
            ||| action is BuildDeviceData
        }),
        *event is Done ==> (yes <==> {
            &&& !(action is SelectBars || action is TakeResource || action is MapBar)
            &&& !(action is CreateQueue || action is AllocDma || action is SubmitAndRead)
            &&& !(action is Finish || action is Fail)
            &&& action is AllocDisk ==> {
                let ds = probe.ns->0.lbaf@[probe.ns->0.flbas as int % 16].ds;
                0 <= ds - probe.params.sector_shift <= 63
            }
        }),
{
}

/// A host that starts with a new device and gives the next one of its answers each time comes to
/// the next state each time.
pub proof fn law_host_is_led_on(
    params: ProbeParams,
    a: Answers,
    start: Probe,
    probe: &mut Probe,
    event: &ProbeEvent,
    k: int,
)
    requires
        k >= 0,
        call_ensures(Probe::new, (params,), start),
        *old(probe) == a.reached(params, k),
        *event == a.event(k),
        call_ensures(Probe::advance, (probe, event), ()),
    ensures
        start == a.reached(params, 0),
        *final(probe) == a.reached(params, k + 1),
{
}

/// What a host that refuses nothing is asked for first, in this order: which memory regions there
/// are; to claim just these; to turn memory on; to let the device access memory; for two interrupt
/// vectors; to let the device use all addresses, also for shared memory; for the first region; and
/// to map it.
#[verifier::spinoff_prover]
#[verifier::rlimit(40)]
pub proof fn law_device_is_claimed_first(
    params: ProbeParams,
    a: Answers,
    k: int,
    action: ProbeAction,
)
    requires
        params.depth >= 1,
        30 * params.blk.hz <= u32::MAX,
        a.ns.ncap != 0,
        params.sector_shift <= a.ns.lbaf@[a.ns.flbas as int % 16].ds < params.sector_shift + 64,
        call_ensures(Probe::action, (&a.reached(params, k),), action),
    ensures
        k == 0 ==> (action == ProbeAction::SelectBars),
        k == 1 ==> (action == (ProbeAction::RequestRegions { bars: a.bars })),
        k == 2 ==> (action == ProbeAction::EnableMem),
        k == 3 ==> (action == ProbeAction::SetMaster),
        k == 4 ==> (action == (ProbeAction::AllocIrqVectors { min: 2, max: 2 })),
        k == 5 ==> (action == (ProbeAction::SetDmaMask { mask: 0xffff_ffff_ffff_ffff })),
        k == 6 ==> (action == (ProbeAction::SetCoherentMask { mask: 0xffff_ffff_ffff_ffff })),
        k == 7 ==> (action == (ProbeAction::TakeResource { index: 0 })),
        k == 8 ==> (action == (ProbeAction::MapBar { bar: a.bar })),
{
    if k == 0 {
        law_probe_takes_a_device_into_use(params, a, Stage::SelectBars);
    } else if k == 1 {
        law_probe_takes_a_device_into_use(params, a, Stage::RequestRegions);
    } else if k == 2 {
        law_probe_takes_a_device_into_use(params, a, Stage::EnableMem);
    } else if k == 3 {
        law_probe_takes_a_device_into_use(params, a, Stage::SetMaster);
    } else if k == 4 {
        law_probe_takes_a_device_into_use(params, a, Stage::AllocIrqVectors);
    } else if k == 5 {
        law_probe_takes_a_device_into_use(params, a, Stage::SetDmaMask);
    } else if k == 6 {
        law_probe_takes_a_device_into_use(params, a, Stage::SetCoherentMask);
    } else if k == 7 {
        law_probe_takes_a_device_into_use(params, a, Stage::TakeResource);
    } else if k == 8 {
        law_probe_takes_a_device_into_use(params, a, Stage::MapBar);
    }
}

/// What it is asked for next: tags for the admin queue and its request queue; tags for I/O, as many
/// as a queue has entries; and these tags with the settings of a request queue, and that queue.
#[verifier::spinoff_prover]
#[verifier::rlimit(40)]
pub proof fn law_request_queues_come_next(
    params: ProbeParams,
    a: Answers,
    k: int,
    action: ProbeAction,
)
    requires
        params.depth >= 1,
        30 * params.blk.hz <= u32::MAX,
        a.ns.ncap != 0,
        params.sector_shift <= a.ns.lbaf@[a.ns.flbas as int % 16].ds < params.sector_shift + 64,
        call_ensures(Probe::action, (&a.reached(params, k),), action),
    ensures
        ({
            let tags = TagSet {
                ops: QueueKind::Io,
                nr_hw_queues: 1,
                queue_depth: 1024,
                timeout: (30 * params.blk.hz) as u32,
                numa_node: (-1) as i32,
                cmd_size: params.blk.pdu_size,
                flags: params.blk.no_sched,
            };
            &&& k == 9 ==> (action == (ProbeAction::AllocTags {
                set: TagSet { ops: QueueKind::Admin, ..tags },
            }))
            &&& k == 10 ==> (action == (ProbeAction::InitQueue { ops: QueueKind::Admin }))
            &&& k == 11 ==> (action == (ProbeAction::AllocTags {
                set: TagSet { queue_depth: params.depth as u32, flags: 0, ..tags },
            }))
            &&& k == 12 ==> (action == (ProbeAction::AllocTags { set: tags }))
            &&& k == 13 ==> (action == (ProbeAction::InitQueue { ops: QueueKind::Io }))
        }),
{
    if k == 9 {
        law_probe_takes_a_device_into_use(params, a, Stage::AllocAdminTags);
    } else if k == 10 {
        law_probe_takes_a_device_into_use(params, a, Stage::InitAdminQueue);
    } else if k == 11 {
        law_probe_takes_a_device_into_use(params, a, Stage::AllocIoTags);
    } else if k == 12 {
        law_probe_takes_a_device_into_use(params, a, Stage::AllocIoTagsAgain);
    } else if k == 13 {
        law_probe_takes_a_device_into_use(params, a, Stage::InitIoQueue);
    }
}

/// What it is asked for after that: the admin queue pair on vector 0 and the I/O queue pair on
/// vector 1, each of the depth that was given; to attach both, as they were made, to their request
/// queues; to register the interrupt of each with its own tags; and to start the controller with the
/// admin queue pair. Once the controller knows the I/O queue pair, both are kept.
#[verifier::spinoff_prover]
#[verifier::rlimit(40)]
pub proof fn law_queue_pairs_come_after_that(
    params: ProbeParams,
    a: Answers,
    k: int,
    action: ProbeAction,
)
    requires
        params.depth >= 1,
        30 * params.blk.hz <= u32::MAX,
        a.ns.ncap != 0,
        params.sector_shift <= a.ns.lbaf@[a.ns.flbas as int % 16].ds < params.sector_shift + 64,
        call_ensures(Probe::action, (&a.reached(params, k),), action),
    ensures
        ({
            let admin = NvmeQueue {
                qid: 0,
                q_depth: params.depth,
                cq_vector: 0,
                polled: false,
                db_offset: a.admin.db_offset,
                sq_dma_handle: a.admin.sq_dma_handle,
                cq_dma_handle: a.admin.cq_dma_handle,
                cq_head: 0,
                cq_phase: 1,
            };
            let io = NvmeQueue {
                qid: 1,
                q_depth: params.depth,
                cq_vector: 1,
                polled: false,
                db_offset: a.io.db_offset,
                sq_dma_handle: a.io.sq_dma_handle,
                cq_dma_handle: a.io.cq_dma_handle,
                cq_head: 0,
                cq_phase: 1,
            };
            let tags = TagSet {
                ops: QueueKind::Io,
                nr_hw_queues: 1,
                queue_depth: 1024,
                timeout: (30 * params.blk.hz) as u32,
                numa_node: (-1) as i32,
                cmd_size: params.blk.pdu_size,
                flags: params.blk.no_sched,
            };
            &&& k == 14 ==> (action == (ProbeAction::CreateQueue {
                params: QueueParams {
                    qid: 0,
                    q_depth: params.depth,
                    cq_vector: 0,
                    polled: false,
                    doorbell: 0,
                },
            }))
            &&& k == 15 ==> (action == (ProbeAction::CreateQueue {
                params: QueueParams {
                    qid: 1,
                    q_depth: params.depth,
                    cq_vector: 1,
                    polled: false,
                    doorbell: 4,
                },
            }))
            &&& k == 16 ==> (action == (ProbeAction::AttachQueues { admin, io }))
            &&& k == 17 ==> (action == (ProbeAction::RegisterIrq {
                irq: NvmeIrqData {
                    tag: Tag { set: TagSet { ops: QueueKind::Admin, ..tags } },
                    queue: admin,
                },
                vector: 0,
            }))
            &&& k == 18 ==> (action == (ProbeAction::RegisterIrq {
                irq: NvmeIrqData { tag: Tag { set: tags }, queue: io },
                vector: 1,
            }))
            &&& k == 19 ==> (action == (ProbeAction::Configure { depth: params.depth, queue: admin }))
            &&& k == 23 ==> (action == (ProbeAction::StoreQueues { admin, io }))
        }),
{
    if k == 14 {
        law_probe_takes_a_device_into_use(params, a, Stage::CreateAdminQueue);
    } else if k == 15 {
        law_probe_takes_a_device_into_use(params, a, Stage::CreateIoQueue);
    } else if k == 16 {
        law_probe_takes_a_device_into_use(params, a, Stage::AttachQueues);
    } else if k == 17 {
        law_probe_takes_a_device_into_use(params, a, Stage::AdminIrq);
    } else if k == 18 {
        law_probe_takes_a_device_into_use(params, a, Stage::IoIrq);
    } else if k == 19 {
        law_probe_takes_a_device_into_use(params, a, Stage::Configure);
    } else if k == 23 {
        law_probe_takes_a_device_into_use(params, a, Stage::StoreQueues);
    }
}

/// The commands that it is asked to have carried out, in this order: to set feature 7, the number of
/// queues, to one, whatever the depth of the queues; to create the I/O completion queue and then the
/// submission queue, where the host has put them; and, when there is memory for the answers, to
/// identify the controller; to identify namespace 1, with the data to be read where they were
/// written; and to get feature 3, the range types, of namespace 1 in the other memory.
#[verifier::spinoff_prover]
#[verifier::rlimit(40)]
pub proof fn law_commands_bring_the_device_up(
    params: ProbeParams,
    a: Answers,
    k: int,
    action: ProbeAction,
)
    requires
        params.depth >= 1,
        30 * params.blk.hz <= u32::MAX,
        a.ns.ncap != 0,
        params.sector_shift <= a.ns.lbaf@[a.ns.flbas as int % 16].ds < params.sector_shift + 64,
        call_ensures(Probe::action, (&a.reached(params, k),), action),
    ensures
        k == 20 ==> (action matches ProbeAction::Submit { cmd } && cmd == NvmeCommand::Features(
            NvmeFeatures {
                opcode: 0x09,
                flags: 0,
                command_id: 0,
                nsid: 0,
                prp1: 0,
                prp2: 0,
                fid: 7,
                dword11: 1,
            },
        )),
        k == 21 ==> (action matches ProbeAction::Submit { cmd } && cmd == NvmeCommand::CreateCq(
            NvmeCreateCq {
                opcode: 0x05,
                flags: 0,
                command_id: 0,
                prp1: a.io.cq_dma_handle,
                cqid: 1,
                qsize: (params.depth - 1) as u16,
                cq_flags: 3,
                irq_vector: 1,
            },
        )),
        k == 22 ==> (action matches ProbeAction::Submit { cmd } && cmd == NvmeCommand::CreateSq(
            NvmeCreateSq {
                opcode: 0x01,
                flags: 0,
                command_id: 0,
                prp1: a.io.sq_dma_handle,
                sqid: 1,
                qsize: (params.depth - 1) as u16,
                sq_flags: 5,
                cqid: 1,
            },
        )),
        k == 24 ==> (action == (ProbeAction::AllocDma { bytes: 8192 })),
        k == 25 ==> (action == (ProbeAction::AllocDma { bytes: 8192 })),
        k == 26 ==> (action matches ProbeAction::Submit { cmd } && cmd == NvmeCommand::Identify(
            NvmeIdentify {
                opcode: 0x06,
                flags: 0,
                command_id: 0,
                nsid: 0,
                prp1: a.id_dma_handle,
                prp2: 0,
                cns: 1,
            },
        )),
        k == 27 ==> (action matches ProbeAction::SubmitAndRead { cmd, handle } && handle == a.id_dma_handle
            && cmd == NvmeCommand::Identify(
            NvmeIdentify {
                opcode: 0x06,
                flags: 0,
                command_id: 0,
                nsid: 1,
                prp1: a.id_dma_handle,
                prp2: 0,
                cns: 0,
            },
        )),
        k == 28 ==> (action matches ProbeAction::Submit { cmd } && cmd == NvmeCommand::Features(
            NvmeFeatures {
                opcode: 0x0a,
                flags: 0,
                command_id: 0,
                nsid: 1,
                prp1: a.rt_dma_handle,
                prp2: 0,
                fid: 3,
                dword11: 0,
            },
        )),
{
    if k == 20 {
        law_probe_takes_a_device_into_use(params, a, Stage::SetQueueCount);
    } else if k == 21 {
        law_probe_takes_a_device_into_use(params, a, Stage::CreateCq);
    } else if k == 22 {
        law_probe_takes_a_device_into_use(params, a, Stage::CreateSq);
    } else if k == 24 {
        law_probe_takes_a_device_into_use(params, a, Stage::AllocIdentify);
    } else if k == 25 {
        law_probe_takes_a_device_into_use(params, a, Stage::AllocRange);
    } else if k == 26 {
        law_probe_takes_a_device_into_use(params, a, Stage::IdentifyController);
    } else if k == 27 {
        law_probe_takes_a_device_into_use(params, a, Stage::IdentifyNamespace);
    } else if k == 28 {
        law_probe_takes_a_device_into_use(params, a, Stage::GetLbaRange);
    }
}

/// What it is asked for at last: to allocate a disk on the tags for I/O and the I/O queue pair; to
/// set it up as the disk that namespace 1 becomes, with the major number that was given; to announce
/// that same disk; and to make what it keeps of the device. Then nothing is left to do.
#[verifier::spinoff_prover]
#[verifier::rlimit(40)]
pub proof fn law_disk_comes_last(
    params: ProbeParams,
    a: Answers,
    k: int,
    action: ProbeAction,
)
    requires
        params.depth >= 1,
        30 * params.blk.hz <= u32::MAX,
        a.ns.ncap != 0,
        params.sector_shift <= a.ns.lbaf@[a.ns.flbas as int % 16].ds < params.sector_shift + 64,
        call_ensures(Probe::action, (&a.reached(params, k),), action),
    ensures
        ({
            let io = NvmeQueue {
                qid: 1,
                q_depth: params.depth,
                cq_vector: 1,
                polled: false,
                db_offset: a.io.db_offset,
                sq_dma_handle: a.io.sq_dma_handle,
                cq_dma_handle: a.io.cq_dma_handle,
                cq_head: 0,
                cq_phase: 1,
            };
            let tags = TagSet {
                ops: QueueKind::Io,
                nr_hw_queues: 1,
                queue_depth: 1024,
                timeout: (30 * params.blk.hz) as u32,
                numa_node: (-1) as i32,
                cmd_size: params.blk.pdu_size,
                flags: params.blk.no_sched,
            };
            let disk = disk_for(a.ns, 1, params.major, params.sector_shift)->0;
            &&& k == 29 ==> (action == (ProbeAction::AllocDisk { tags, queue: io }))
            &&& k == 30 ==> (action == (ProbeAction::SetUpDisk { disk }))
            &&& k == 31 ==> (action == (ProbeAction::AddDisk { disk }))
            &&& k == 32 ==> (action == ProbeAction::BuildDeviceData)
            &&& k == 33 ==> (action == ProbeAction::Finish)
        }),
{
    if k == 29 {
        law_probe_takes_a_device_into_use(params, a, Stage::AllocDisk);
    } else if k == 30 {
        law_probe_takes_a_device_into_use(params, a, Stage::SetUpDisk);
    } else if k == 31 {
        law_probe_takes_a_device_into_use(params, a, Stage::AddDisk);
    } else if k == 32 {
        law_probe_takes_a_device_into_use(params, a, Stage::BuildDeviceData);
    } else if k == 33 {
        law_probe_takes_a_device_into_use(params, a, Stage::Finished);
    }
}

/// The disk that is set up and announced has as many bytes as the namespace, by the format whose
/// number is in the lower four bits of `flbas`, and the major number that was given.
pub proof fn law_announced_disk_is_the_namespace(
    params: ProbeParams,
    a: Answers,
    k: int,
    action: ProbeAction,
)
    requires
        params.depth >= 1,
        30 * params.blk.hz <= u32::MAX,
        a.ns.ncap != 0,
        params.sector_shift <= a.ns.lbaf@[a.ns.flbas as int % 16].ds < params.sector_shift + 64,
        a.ns.nsze * pow2((a.ns.lbaf@[a.ns.flbas as int % 16].ds - params.sector_shift) as nat)
            <= u64::MAX,
        k == 30 || k == 31,
        call_ensures(Probe::action, (&a.reached(params, k),), action),
    ensures
        ({
            let disk = match action {
                ProbeAction::SetUpDisk { disk } => disk,
                ProbeAction::AddDisk { disk } => disk,
                _ => arbitrary(),
            };
            &&& k == 30 ==> action is SetUpDisk
            &&& k == 31 ==> action is AddDisk
            &&& disk.capacity * pow2(params.sector_shift as nat) == a.ns.nsze * pow2(
                a.ns.lbaf@[a.ns.flbas as int % 16].ds as nat,
            )
            &&& disk.major == params.major
            &&& disk.minors == 64
            &&& disk.max_segments == 16
            &&& disk.ns.id == 1
            &&& disk.ns.lba_shift == 9
            &&& disk.name@ =~= seq![110i8, 118i8, 109i8, 101i8, 48i8, 110i8, 49i8]
        }),
{
    law_disk_comes_last(params, a, k, action);
    law_disk_is_as_large_as_its_namespace(
        a.ns,
        1,
        params.major,
        params.sector_shift,
        disk_for(a.ns, 1, params.major, params.sector_shift)->0,
    );
}

/// What is kept of a device in use: its registers and where they are mapped, doorbells without
/// gaps, and both request queues with the tags that they were made with.
pub proof fn law_device_in_use_is_kept(params: ProbeParams, a: Answers)
    requires
        params.depth >= 1,
        30 * params.blk.hz <= u32::MAX,
        a.ns.ncap != 0,
        params.sector_shift <= a.ns.lbaf@[a.ns.flbas as int % 16].ds < params.sector_shift + 64,
    ensures
        ({
            let data = a.reached(params, 33).data;
            let tags = TagSet {
                ops: QueueKind::Io,
                nr_hw_queues: 1,
                queue_depth: 1024,
                timeout: (30 * params.blk.hz) as u32,
                numa_node: (-1) as i32,
                cmd_size: params.blk.pdu_size,
                flags: params.blk.no_sched,
            };
            &&& data.bar == a.bar
            &&& data.bar_ptr == match a.addr {
                Some(mapped) => mapped,
                None => 0,
            }
            &&& data.db_stride == 0
            &&& data.admin_tag.set == (TagSet { ops: QueueKind::Admin, ..tags })
            &&& data.io_tag.set == tags
            &&& data.admin_rq.ops == QueueKind::Admin
            &&& data.io_rq.ops == QueueKind::Io
        }),
{
    law_probe_takes_a_device_into_use(params, a, Stage::Finished);
}

/// A refusal, or that there are no registers, ends it: what is asked for next is to answer with
/// that error, and no answer is accepted any more.
pub proof fn law_refused_device_is_given_up(
    probe: &mut Probe,
    event: &ProbeEvent,
    action: ProbeAction,
    later: &ProbeEvent,
    yes: bool,
)
    requires
        old(probe).wf(),
        old(probe).fits(*event),
        *event is Refused || *event is NoResource,
        call_ensures(Probe::advance, (probe, event), ()),
        call_ensures(Probe::action, (&*final(probe),), action),
        call_ensures(Probe::accepts, (&*final(probe), later), yes),
    ensures
        call_requires(Probe::advance, (probe, event)),
        *event matches ProbeEvent::Refused { errno } ==> action == (ProbeAction::Fail {
            error: ProbeError::Host { errno },
        }),
        *event is NoResource ==> action == (ProbeAction::Fail { error: ProbeError::NoResource }),
        !yes,
{
}

/// A namespace without capacity gets no disk: when it has identified itself as such, all that is
/// left is to make what the host keeps of the device, which is what it would be with a disk. With
/// that done, the device is in use.
pub proof fn law_empty_namespace_gets_no_disk(
    probe: &mut Probe,
    event: &ProbeEvent,
    next: ProbeAction,
    built: &mut Probe,
    last: ProbeAction,
)
    requires
        old(probe).wf(),
        *event matches ProbeEvent::Identified { ns } && ns.ncap == 0,
        old(probe).fits(*event),
        call_ensures(Probe::advance, (probe, event), ()),
        call_ensures(Probe::action, (&*final(probe),), next),
        *old(built) == *final(probe),
        call_ensures(Probe::advance, (built, &ProbeEvent::Done), ()),
        call_ensures(Probe::action, (&*final(built),), last),
    ensures
        call_requires(Probe::advance, (probe, event)),
        next == ProbeAction::BuildDeviceData,
        call_requires(Probe::advance, (built, &ProbeEvent::Done)),
        last == ProbeAction::Finish,
        final(built).data == old(probe).data,
        final(built).disk is None,
{
}

/// A host that refuses nothing can ask at every stage what to do, its answer is accepted, and it
/// can go on with it.
pub proof fn law_every_answer_is_accepted(
    params: ProbeParams,
    a: Answers,
    stage: Stage,
    probe: &mut Probe,
    event: &ProbeEvent,
    yes: bool,
)
    requires
        params.depth >= 1,
        30 * params.blk.hz <= u32::MAX,
        a.ns.ncap != 0,
        params.sector_shift <= a.ns.lbaf@[a.ns.flbas as int % 16].ds < params.sector_shift + 64,
        stage !is Failed,
        stage != Stage::Finished,
        *old(probe) == a.reached(params, stage.rank()),
        *event == a.event(stage.rank()),
        call_ensures(Probe::accepts, (&*old(probe), event), yes),
    ensures
        call_requires(Probe::new, (params,)),
        call_requires(Probe::action, (&*old(probe),)),
        call_requires(Probe::accepts, (&*old(probe), event)),
        call_requires(Probe::advance, (probe, event)),
        yes,
{
    law_probe_takes_a_device_into_use(params, a, stage);
}

} // verus!
