//! Pairs of a submission queue and a completion queue.
use vstd::prelude::*;

use crate::defs::NvmeCompletion;

verus! {

/// A submission queue and the completion queue that belongs to it.
#[derive(Clone, Copy, PartialEq, Eq, Structural, Debug)]
pub struct NvmeQueue {
    /// Identifier, which both queues share.
    pub qid: u16,
    /// How many entries each of the two has.
    pub q_depth: u16,
    /// Which interrupt vector completions raise.
    pub cq_vector: u16,
    /// Completions are polled for and raise no interrupt.
    pub polled: bool,
    /// Where the submission doorbell is; the completion doorbell comes after it.
    pub db_offset: usize,
    /// Where the device finds the submission queue.
    pub sq_dma_handle: u64,
    /// Where the device finds the completion queue.
    pub cq_dma_handle: u64,
    /// The next completion entry to look at.
    pub cq_head: u16,
    /// The phase tag that a new entry has there.
    pub cq_phase: u16,
}

/// What a queue pair is to be like.
#[derive(Clone, Copy, PartialEq, Eq, Structural, Debug)]
pub struct QueueParams {
    pub qid: u16,
    pub q_depth: u16,
    pub cq_vector: u16,
    pub polled: bool,
    /// Tells the host where the doorbells of the pair are.
    pub doorbell: usize,
}

/// Where the host has put a queue pair.
#[derive(Clone, Copy, PartialEq, Eq, Structural, Debug)]
pub struct QueuePlace {
    pub sq_dma_handle: u64,
    pub cq_dma_handle: u64,
    pub db_offset: usize,
}

/// A completion, as the request that it belongs to gets to know it.
#[derive(Clone, Copy, PartialEq, Eq, Structural, Debug)]
pub struct Completed {
    /// The tag of the request.
    pub tag: u32,
    pub result: u32,
    /// The status without the phase tag.
    pub status: u16,
}

/// What an entry says of the request that it belongs to.
pub open spec fn outcome(cqe: NvmeCompletion) -> Completed {
    Completed { tag: cqe.command_id as u32, result: cqe.result, status: cqe.status / 2 }
}

/// The other phase: the lowest bit turned over.
pub open spec fn flipped(phase: u16) -> u16 {
    if phase % 2 == 0 {
        (phase + 1) as u16
    } else {
        (phase - 1) as u16
    }
}

impl NvmeQueue {
    /// A queue pair in which nothing has happened yet: the device will start at the first entry,
    /// on a round with the phase tag set.
    pub open spec fn fresh(params: QueueParams, place: QueuePlace) -> NvmeQueue {
        NvmeQueue {
            qid: params.qid,
            q_depth: params.q_depth,
            cq_vector: params.cq_vector,
            polled: params.polled,
            db_offset: place.db_offset,
            sq_dma_handle: place.sq_dma_handle,
            cq_dma_handle: place.cq_dma_handle,
            cq_head: 0,
            cq_phase: 1,
        }
    }

    /// A queue pair in which nothing has happened yet.
    pub fn new(params: &QueueParams, place: &QueuePlace) -> (queue: NvmeQueue)
        ensures
            queue == NvmeQueue::fresh(*params, *place),
    {
        NvmeQueue {
            qid: params.qid,
            q_depth: params.q_depth,
            cq_vector: params.cq_vector,
            polled: params.polled,
            db_offset: place.db_offset,
            sq_dma_handle: place.sq_dma_handle,
            cq_dma_handle: place.cq_dma_handle,
            cq_head: 0,
            cq_phase: 1,
        }
    }

    /// The head is an entry of the queue.
    pub open spec fn wf(self) -> bool {
        self.cq_head < self.q_depth
    }

    /// Which entry comes `j` after the head, for up to one round.
    pub open spec fn slot(self, j: int) -> int {
        if self.cq_head + j < self.q_depth {
            self.cq_head + j
        } else {
            self.cq_head + j - self.q_depth
        }
    }

    /// The phase tag of a new entry there: it changes when the queue starts over.
    pub open spec fn tag_at(self, j: int) -> u16 {
        if self.cq_head + j < self.q_depth {
            self.cq_phase
        } else {
            flipped(self.cq_phase)
        }
    }

    /// The queue with its head `j` entries further, for up to one round.
    pub open spec fn moved(self, j: int) -> NvmeQueue {
        NvmeQueue { cq_head: self.slot(j) as u16, cq_phase: self.tag_at(j), ..self }
    }

    /// Whether the entry at the head, which holds `cqe`, is new.
    pub fn cqe_pending(&self, cqe: &NvmeCompletion) -> (new: bool)
        ensures
            new == (cqe.status % 2 == self.cq_phase),
    {
        let status: u16 = cqe.status;
        assert(status & 1 == status % 2) by (bit_vector);
        status & 1 == self.cq_phase
    }

    /// Takes the entry at the head, which holds `cqe`.
    pub fn take_cqe(&mut self, cqe: &NvmeCompletion) -> (done: Completed)
        requires
            old(self).wf(),
        ensures
            final(self).wf(),
            *final(self) == old(self).moved(1),
            done == outcome(*cqe),
    {
        let status: u16 = cqe.status;
        assert(status >> 1 == status / 2) by (bit_vector);
        let phase: u16 = self.cq_phase;
        assert(phase % 2 == 0 ==> phase ^ 1 == phase + 1) by (bit_vector);
        assert(phase % 2 == 1 ==> phase ^ 1 == phase - 1) by (bit_vector);
        self.cq_head = self.cq_head + 1;
        if self.cq_head == self.q_depth {
            self.cq_head = 0;
            self.cq_phase = phase ^ 1;
        }
        Completed { tag: cqe.command_id as u32, result: cqe.result, status: status >> 1 }
    }
}

/// The queue pairs of a device.
#[derive(Debug)]
pub struct NvmeQueues {
    pub admin_queue: Option<NvmeQueue>,
    pub io_queues: Vec<NvmeQueue>,
}

impl NvmeQueues {
    /// No queue pairs.
    pub fn new() -> (queues: NvmeQueues)
        ensures
            queues.admin_queue is None,
            queues.io_queues@ == Seq::<NvmeQueue>::empty(),
    {
        NvmeQueues { admin_queue: None, io_queues: Vec::new() }
    }

    /// Takes in the admin queue, in place of an earlier one, and one more I/O queue.
    pub fn store(&mut self, admin: NvmeQueue, io: NvmeQueue)
        ensures
            final(self).admin_queue == Some(admin),
            final(self).io_queues@ == old(self).io_queues@.push(io),
    {
        self.admin_queue = Some(admin);
        self.io_queues.push(io);
    }
}

/// Taking an entry hands over all that it says: the identifier as the tag, every bit of the
/// result, and a status which, with the phase tag put back below it, is the one in the entry.
pub proof fn law_entry_is_handed_over_whole(
    queue: &mut NvmeQueue,
    cqe: &NvmeCompletion,
    done: Completed,
)
    requires
        call_ensures(NvmeQueue::take_cqe, (queue, cqe), done),
    ensures
        done.tag == cqe.command_id,
        done.result == cqe.result,
        2 * done.status + cqe.status % 2 == cqe.status,
{
}

/// Taking an entry moves the head to the next one, and from the last one back to the first. Only
/// there the phase changes, in its lowest bit. Nothing else of the queue pair changes.
pub proof fn law_head_goes_round(queue: &mut NvmeQueue, cqe: &NvmeCompletion, done: Completed)
    requires
        old(queue).cq_head < old(queue).q_depth,
        call_ensures(NvmeQueue::take_cqe, (queue, cqe), done),
    ensures
        call_requires(NvmeQueue::take_cqe, (queue, cqe)),
        old(queue).cq_head + 1 < old(queue).q_depth ==> {
            &&& final(queue).cq_head == old(queue).cq_head + 1
            &&& final(queue).cq_phase == old(queue).cq_phase
        },
        old(queue).cq_head + 1 == old(queue).q_depth ==> {
            &&& final(queue).cq_head == 0
            &&& final(queue).cq_phase != old(queue).cq_phase
            &&& final(queue).cq_phase / 2 == old(queue).cq_phase / 2
        },
        final(queue).qid == old(queue).qid,
        final(queue).q_depth == old(queue).q_depth,
        final(queue).cq_vector == old(queue).cq_vector,
        final(queue).polled == old(queue).polled,
        final(queue).db_offset == old(queue).db_offset,
        final(queue).sq_dma_handle == old(queue).sq_dma_handle,
        final(queue).cq_dma_handle == old(queue).cq_dma_handle,
{
}

/// An entry is new exactly if its phase tag, the lowest bit of its status, is the phase that is
/// looked for; nothing else of the entry or of the queue pair counts.
pub proof fn law_phase_tag_makes_an_entry_new(queue: &NvmeQueue, cqe: &NvmeCompletion, new: bool)
    requires
        call_ensures(NvmeQueue::cqe_pending, (queue, cqe), new),
    ensures
        call_requires(NvmeQueue::cqe_pending, (queue, cqe)),
        new <==> cqe.status & 1 == queue.cq_phase,
{
    let status = cqe.status;
    assert(status & 1 == status % 2) by (bit_vector);
}

/// A new queue pair is as it was asked for and lies where the host has put it. Its first entry is
/// looked at first, and is new once its phase tag is set.
pub proof fn law_queue_pair_is_as_asked_for(
    params: &QueueParams,
    place: &QueuePlace,
    queue: NvmeQueue,
)
    requires
        call_ensures(NvmeQueue::new, (params, place), queue),
    ensures
        call_requires(NvmeQueue::new, (params, place)),
        queue.qid == params.qid,
        queue.q_depth == params.q_depth,
        queue.cq_vector == params.cq_vector,
        queue.polled == params.polled,
        queue.db_offset == place.db_offset,
        queue.sq_dma_handle == place.sq_dma_handle,
        queue.cq_dma_handle == place.cq_dma_handle,
        queue.cq_head == 0,
        queue.cq_phase == 1,
{
}

/// Queue pairs that were stored in new ones are the ones that are there: the admin queue pair, and
/// after all earlier ones the I/O queue pair.
pub proof fn law_stored_queue_pairs_are_kept(
    none: NvmeQueues,
    queues: &mut NvmeQueues,
    admin: NvmeQueue,
    io: NvmeQueue,
)
    requires
        call_ensures(NvmeQueues::new, (), none),
        call_ensures(NvmeQueues::store, (queues, admin, io), ()),
    ensures
        none.admin_queue is None,
        none.io_queues@.len() == 0,
        final(queues).admin_queue == Some(admin),
        final(queues).io_queues@.len() == old(queues).io_queues@.len() + 1,
        final(queues).io_queues@.last() == io,
        forall|i: int|
            0 <= i < old(queues).io_queues@.len() ==> #[trigger] final(queues).io_queues@[i]
                == old(queues).io_queues@[i],
{
}

} // verus!
