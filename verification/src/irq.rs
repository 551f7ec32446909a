//! What an interrupt does: it takes the new entries of a completion queue.
//!
//! The device marks an entry as new by its phase tag, which has one value on one round through
//! the queue and the other value on the next.
use vstd::prelude::*;
use vstd::arithmetic::div_mod::{lemma_fundamental_div_mod, lemma_fundamental_div_mod_converse};

use crate::defs::{BarOp, NvmeCompletion};
use crate::queue::{outcome, Completed, NvmeQueue, QueueParams, QueuePlace};

verus! {

/// How far the completion doorbell is behind the submission doorbell.
pub const CQ_DOORBELL: usize = 0x4;

/// Entry number `j` from the head on is new.
pub open spec fn is_new(queue: NvmeQueue, ring: Seq<NvmeCompletion>, j: int) -> bool {
    ring[queue.slot(j)].status % 2 == queue.tag_at(j)
}

/// An interrupt on `before` has handed over `done`: all the new entries in front of the first
/// one that is not new, in their order. It left the head at that one.
pub open spec fn handled(
    before: NvmeQueue,
    ring: Seq<NvmeCompletion>,
    after: NvmeQueue,
    done: Seq<Completed>,
) -> bool {
    let n = done.len() as int;
    &&& n <= before.q_depth
    &&& forall|j: int| 0 <= j < n ==> #[trigger] is_new(before, ring, j)
    &&& forall|j: int| 0 <= j < n ==> #[trigger] done[j] == outcome(ring[before.slot(j)])
    &&& !is_new(before, ring, n)
    &&& after == before.moved(n)
}

/// What an interrupt leads to.
#[derive(Debug)]
pub struct IrqOutcome {
    /// The completions to hand over to their requests, in this order.
    pub done: Vec<Completed>,
    /// The doorbell to ring after that.
    pub doorbell: BarOp,
    /// The interrupt is claimed.
    pub claimed: bool,
}

/// The doorbell that tells the device how far the completion queue was read.
pub fn cq_doorbell(queue: &NvmeQueue) -> (op: BarOp)
    requires
        queue.db_offset + CQ_DOORBELL <= usize::MAX,
    ensures
        op == (BarOp::Writel {
            word: queue.cq_head as u32,
            offset: (queue.db_offset + CQ_DOORBELL) as usize,
        }),
{
    BarOp::Writel { word: queue.cq_head as u32, offset: queue.db_offset + CQ_DOORBELL }
}

/// What is to be done next in an interrupt.
#[derive(Clone, Copy, PartialEq, Eq, Structural, Debug)]
pub enum IrqStep {
    /// Read the entry `index` once more, take it with [`NvmeQueue::take_cqe`], hand it over with
    /// [`crate::mq::deliver`], and look at the entry that is then the head.
    Take { index: usize },
    /// Ring the doorbell, and say whether the interrupt is claimed.
    Ring { doorbell: BarOp, claimed: bool },
}

/// The step after a look at the head found `cqe` there: a new entry is taken; where there is none,
/// the interrupt is over.
pub open spec fn step_after(queue: NvmeQueue, cqe: NvmeCompletion) -> IrqStep {
    if cqe.status % 2 == queue.cq_phase {
        IrqStep::Take { index: queue.cq_head as usize }
    } else {
        IrqStep::Ring {
            doorbell: BarOp::Writel {
                word: queue.cq_head as u32,
                offset: (queue.db_offset + CQ_DOORBELL) as usize,
            },
            claimed: true,
        }
    }
}

/// Decides what is to be done after a look at the head found `cqe` there.
pub fn irq_step(queue: &NvmeQueue, cqe: &NvmeCompletion) -> (step: IrqStep)
    requires
        cqe.status % 2 != queue.cq_phase ==> queue.db_offset + CQ_DOORBELL <= usize::MAX,
    ensures
        step == step_after(*queue, *cqe),
{
    if queue.cqe_pending(cqe) {
        IrqStep::Take { index: queue.cq_head as usize }
    } else {
        IrqStep::Ring { doorbell: cq_doorbell(queue), claimed: true }
    }
}

/// Handles an interrupt on a queue whose completion entries are `ring` all along. Where the device
/// may post meanwhile, [`irq_step`] goes through them one by one.
///
/// An interrupt is always claimed, also where it finds no new entry.
pub fn handle_irq(queue: &mut NvmeQueue, ring: &Vec<NvmeCompletion>) -> (out: IrqOutcome)
    requires
        old(queue).wf(),
        ring@.len() >= old(queue).q_depth,
        old(queue).db_offset + CQ_DOORBELL <= usize::MAX,
    ensures
        final(queue).wf(),
        old(queue).cq_phase <= 1 ==> final(queue).cq_phase <= 1,
        handled(*old(queue), ring@, *final(queue), out.done@),
        out.doorbell == (BarOp::Writel {
            word: final(queue).cq_head as u32,
            offset: (old(queue).db_offset + CQ_DOORBELL) as usize,
        }),
        out.claimed,
{
    let mut done: Vec<Completed> = Vec::new();
    let ghost before = *queue;
    while queue.cqe_pending(&ring[queue.cq_head as usize])
        invariant
            before.wf(),
            queue.wf(),
            ring@.len() >= before.q_depth,
            done@.len() <= before.q_depth,
            *queue == before.moved(done@.len() as int),
            forall|j: int| 0 <= j < done@.len() ==> #[trigger] is_new(before, ring@, j),
            forall|j: int|
                0 <= j < done@.len() ==> #[trigger] done@[j] == outcome(ring@[before.slot(j)]),
        ensures
            !is_new(before, ring@, done@.len() as int),
        decreases before.q_depth - done@.len(),
    {
        proof {
            if done@.len() == before.q_depth {
                assert(is_new(before, ring@, 0));
            }
        }
        let cqe = ring[queue.cq_head as usize];
        assert(is_new(before, ring@, done@.len() as int));
        let one = queue.take_cqe(&cqe);
        done.push(one);
    }
    let doorbell = cq_doorbell(queue);
    IrqOutcome { done, doorbell, claimed: true }
}

/// The phase tag that the device puts on completion number `k`, counted from the first one ever:
/// set on the first round, clear on the second, and so on.
pub open spec fn lap_tag(k: int, depth: int) -> int {
    1 - (k / depth) % 2
}

/// The ring after the device has posted `posted`, from the first completion ever to the last one
/// yet: each entry holds the last completion that went there. An entry that none went to yet has
/// a clear phase tag, as fresh memory has.
pub open spec fn ring_holds(
    ring: Seq<NvmeCompletion>,
    depth: int,
    posted: Seq<NvmeCompletion>,
) -> bool {
    forall|k: int|
        posted.len() - depth <= k < posted.len() ==> {
            &&& (#[trigger] ring[k % depth]).status % 2 == lap_tag(k, depth)
            &&& k >= 0 ==> ring[k % depth] == posted[k]
        }
}

/// The next completion that the driver looks for is number `k`.
pub open spec fn looks_for(queue: NvmeQueue, k: int) -> bool {
    &&& queue.wf()
    &&& k >= 0
    &&& queue.cq_head == k % queue.q_depth as int
    &&& queue.cq_phase == lap_tag(k, queue.q_depth as int)
}

/// In a queue pair in which nothing has happened yet, the driver looks for the first completion
/// ever, and fresh memory holds none.
pub proof fn law_fresh_queue_looks_for_the_first(
    params: QueueParams,
    place: QueuePlace,
    ring: Seq<NvmeCompletion>,
)
    requires
        params.q_depth >= 1,
        ring.len() == params.q_depth,
        forall|i: int| 0 <= i < ring.len() ==> (#[trigger] ring[i]).status == 0,
    ensures
        looks_for(NvmeQueue::fresh(params, place), 0),
        ring_holds(ring, params.q_depth as int, Seq::empty()),
{
    let d = params.q_depth as int;
    lemma_fundamental_div_mod_converse(0, d, 0, 0);
    assert forall|k: int| -d <= k < 0 implies (#[trigger] ring[k % d]).status % 2 == lap_tag(
        k,
        d,
    ) by {
        assert(d * -1 == -d) by (nonlinear_arith);
        lemma_fundamental_div_mod_converse(k, d, -1, k + d);
    }
}

/// Completion number `k + j` goes to the entry `j` after the one of number `k`, with the phase tag
/// that is looked for there.
proof fn lemma_slots_in_step(queue: NvmeQueue, k: int, j: int)
    requires
        looks_for(queue, k),
        0 <= j <= queue.q_depth,
    ensures
        (k + j) % queue.q_depth as int == queue.slot(j),
        lap_tag(k + j, queue.q_depth as int) == queue.tag_at(j),
{
    let d = queue.q_depth as int;
    lemma_fundamental_div_mod(k, d);
    let lap = k / d;
    if queue.cq_head + j < d {
        lemma_fundamental_div_mod_converse(k + j, d, lap, queue.cq_head + j);
    } else {
        assert(d * (lap + 1) == d * lap + d) by (nonlinear_arith);
        lemma_fundamental_div_mod_converse(k + j, d, lap + 1, queue.cq_head + j - d);
    }
}

/// The device reuses an entry one round later with the other phase tag.
proof fn lemma_round_flips_tag(k: int, depth: int)
    requires
        depth > 0,
    ensures
        (k - depth) % depth == k % depth,
        lap_tag(k - depth, depth) == 1 - lap_tag(k, depth),
{
    lemma_fundamental_div_mod(k, depth);
    let lap = k / depth;
    assert(depth * (lap - 1) == depth * lap - depth) by (nonlinear_arith);
    lemma_fundamental_div_mod_converse(k - depth, depth, lap - 1, k % depth);
}

/// The entry at the head is new exactly if the device has posted the completion that is looked
/// for; taking it hands over that completion and moves on to the next one. This holds step by
/// step, whatever the device posts between two steps.
pub proof fn law_step_takes_the_next_completion(
    queue: NvmeQueue,
    ring: Seq<NvmeCompletion>,
    posted: Seq<NvmeCompletion>,
    k: int,
)
    requires
        looks_for(queue, k),
        ring_holds(ring, queue.q_depth as int, posted),
        k <= posted.len() <= k + queue.q_depth,
    ensures
        ring[queue.cq_head as int].status % 2 == queue.cq_phase <==> k < posted.len(),
        k < posted.len() ==> outcome(ring[queue.cq_head as int]) == outcome(posted[k]),
        looks_for(queue.moved(1), k + 1),
{
    let d = queue.q_depth as int;
    lemma_slots_in_step(queue, k, 0);
    lemma_slots_in_step(queue, k, 1);
    if k < posted.len() {
        assert(ring[k % d].status % 2 == lap_tag(k, d));
    } else {
        lemma_round_flips_tag(k, d);
        assert(ring[(k - d) % d].status % 2 == lap_tag(k - d, d));
    }
}

/// An interrupt hands over exactly the completions that the device has posted and no interrupt has
/// handed over yet, each of them once and in the order in which they were posted. It then looks
/// for the next one that the device will post.
pub proof fn law_irq_hands_over_each_completion_once(
    queue: NvmeQueue,
    ring: Seq<NvmeCompletion>,
    after: NvmeQueue,
    done: Seq<Completed>,
    posted: Seq<NvmeCompletion>,
    k: int,
)
    requires
        looks_for(queue, k),
        ring_holds(ring, queue.q_depth as int, posted),
        k <= posted.len() <= k + queue.q_depth,
        handled(queue, ring, after, done),
    ensures
        done.len() == posted.len() - k,
        forall|j: int| 0 <= j < done.len() ==> #[trigger] done[j] == outcome(posted[k + j]),
        looks_for(after, posted.len() as int),
{
    let d = queue.q_depth as int;
    let total = posted.len() as int;
    let n = done.len() as int;
    if n > total - k {
        let j = total - k;
        lemma_slots_in_step(queue, k, j);
        lemma_round_flips_tag(total, d);
        assert(ring[(total - d) % d].status % 2 == lap_tag(total - d, d));
        assert(is_new(queue, ring, j));
        assert(false);
    }
    if n < total - k {
        lemma_slots_in_step(queue, k, n);
        assert(ring[(k + n) % d].status % 2 == lap_tag(k + n, d));
        assert(false);
    }
    assert forall|j: int| 0 <= j < n implies #[trigger] done[j] == outcome(posted[k + j]) by {
        lemma_slots_in_step(queue, k, j);
        assert(ring[(k + j) % d] == posted[k + j]);
    }
    lemma_slots_in_step(queue, k, n);
}

/// What the driver finds when it reads an entry: the ring as it then is, with the first `posted`
/// completions.
pub struct Sight {
    pub ring: Seq<NvmeCompletion>,
    pub posted: int,
}

/// The queue after `n` entries were taken, one by one.
pub open spec fn stepped(queue: NvmeQueue, n: int) -> NvmeQueue
    decreases n,
{
    if n <= 0 {
        queue
    } else {
        stepped(queue, n - 1).moved(1)
    }
}

/// What is at the head at a sight.
pub open spec fn head_entry(queue: NvmeQueue, sight: Sight) -> NvmeCompletion {
    sight.ring[queue.cq_head as int]
}

/// An interrupt, step by step: at look number `j` the driver finds `looks[j]` and, if the entry is
/// new, takes what it finds at `reads[j]`, which makes `done[j]`; at the last look it finds nothing
/// new and goes on with `last`.
pub open spec fn ran(
    queue: NvmeQueue,
    looks: Seq<Sight>,
    reads: Seq<Sight>,
    done: Seq<Completed>,
    last: IrqStep,
) -> bool {
    let n = done.len() as int;
    &&& looks.len() == n + 1
    &&& reads.len() == n
    &&& forall|j: int|
        0 <= j < n ==> #[trigger] step_after(
            stepped(queue, j),
            head_entry(stepped(queue, j), looks[j]),
        ) is Take
    &&& forall|j: int|
        0 <= j < n ==> #[trigger] done[j] == outcome(head_entry(stepped(queue, j), reads[j]))
    &&& last == step_after(stepped(queue, n), head_entry(stepped(queue, n), looks[n]))
    &&& last is Ring
}

/// The device posts all along: each sight holds what was posted by then, of all that is ever
/// posted. It does not post over what the driver has not told it to be read, which is from number
/// `k` on.
pub open spec fn ring_grows(
    looks: Seq<Sight>,
    reads: Seq<Sight>,
    depth: int,
    posted: Seq<NvmeCompletion>,
    k: int,
) -> bool {
    &&& looks.len() == reads.len() + 1
    &&& k <= looks[0].posted
    &&& forall|j: int|
        0 <= j < looks.len() ==> {
            &&& (#[trigger] looks[j]).posted <= posted.len()
            &&& looks[j].posted <= k + depth
            &&& ring_holds(looks[j].ring, depth, posted.take(looks[j].posted))
        }
    &&& forall|j: int|
        0 <= j < reads.len() ==> {
            &&& looks[j].posted <= (#[trigger] reads[j]).posted <= looks[j + 1].posted
            &&& ring_holds(reads[j].ring, depth, posted.take(reads[j].posted))
        }
}

/// After `j` entries of an interrupt the driver looks for number `k + j`, which the device may have
/// posted meanwhile.
proof fn lemma_run_looks_for(
    queue: NvmeQueue,
    looks: Seq<Sight>,
    reads: Seq<Sight>,
    done: Seq<Completed>,
    last: IrqStep,
    posted: Seq<NvmeCompletion>,
    k: int,
    j: int,
)
    requires
        looks_for(queue, k),
        ran(queue, looks, reads, done, last),
        ring_grows(looks, reads, queue.q_depth as int, posted, k),
        0 <= j <= done.len(),
    ensures
        looks_for(stepped(queue, j), k + j),
        stepped(queue, j) == (NvmeQueue {
            cq_head: stepped(queue, j).cq_head,
            cq_phase: stepped(queue, j).cq_phase,
            ..queue
        }),
        k + j <= looks[j].posted,
        j > 0 ==> done[j - 1] == outcome(posted[k + j - 1]),
    decreases j,
{
    if j > 0 {
        let i = j - 1;
        lemma_run_looks_for(queue, looks, reads, done, last, posted, k, i);
        let q = stepped(queue, i);
        assert(step_after(q, head_entry(q, looks[i])) is Take);
        assert(looks[i].posted <= posted.len());
        assert(reads[i].posted <= looks[i + 1].posted);
        assert(looks[i + 1].posted <= k + queue.q_depth);
        law_step_takes_the_next_completion(
            q,
            looks[i].ring,
            posted.take(looks[i].posted),
            k + i,
        );
        law_step_takes_the_next_completion(
            q,
            reads[i].ring,
            posted.take(reads[i].posted),
            k + i,
        );
        assert(done[i] == outcome(head_entry(q, reads[i])));
        assert(posted.take(reads[i].posted)[k + i] == posted[k + i]);
    }
}

/// An interrupt hands over, each once and in the order in which they were posted, all completions
/// from the one that is looked for up to the last one that the device has posted by the last look,
/// also where the device posts during the interrupt. Then it tells the device how far it has read,
/// and claims the interrupt.
pub proof fn law_irq_keeps_up_with_the_device(
    queue: NvmeQueue,
    looks: Seq<Sight>,
    reads: Seq<Sight>,
    done: Seq<Completed>,
    last: IrqStep,
    posted: Seq<NvmeCompletion>,
    k: int,
)
    requires
        looks_for(queue, k),
        ran(queue, looks, reads, done, last),
        ring_grows(looks, reads, queue.q_depth as int, posted, k),
    ensures
        k + done.len() == looks.last().posted,
        forall|j: int| 0 <= j < done.len() ==> #[trigger] done[j] == outcome(posted[k + j]),
        looks_for(stepped(queue, done.len() as int), k + done.len()),
        last == (IrqStep::Ring {
            doorbell: BarOp::Writel {
                word: stepped(queue, done.len() as int).cq_head as u32,
                offset: (queue.db_offset + CQ_DOORBELL) as usize,
            },
            claimed: true,
        }),
{
    let n = done.len() as int;
    assert forall|j: int| 0 <= j < n implies #[trigger] done[j] == outcome(posted[k + j]) by {
        lemma_run_looks_for(queue, looks, reads, done, last, posted, k, j + 1);
    }
    lemma_run_looks_for(queue, looks, reads, done, last, posted, k, n);
    assert(looks[n].posted <= posted.len());
    law_step_takes_the_next_completion(
        stepped(queue, n),
        looks[n].ring,
        posted.take(looks[n].posted),
        k + n,
    );
}

/// The driver goes through a ring that stays as it is, entry by entry, as [`handle_irq`] does at
/// once: it hands over the same completions, leaves the same queue and rings the same doorbell.
pub proof fn law_steps_agree_on_a_still_ring(
    queue: NvmeQueue,
    looks: Seq<Sight>,
    reads: Seq<Sight>,
    done: Seq<Completed>,
    last: IrqStep,
    ring: Seq<NvmeCompletion>,
)
    requires
        queue.wf(),
        ran(queue, looks, reads, done, last),
        forall|j: int| 0 <= j < looks.len() ==> (#[trigger] looks[j]).ring == ring,
        forall|j: int| 0 <= j < reads.len() ==> (#[trigger] reads[j]).ring == ring,
    ensures
        handled(queue, ring, stepped(queue, done.len() as int), done),
        last == (IrqStep::Ring {
            doorbell: BarOp::Writel {
                word: stepped(queue, done.len() as int).cq_head as u32,
                offset: (queue.db_offset + CQ_DOORBELL) as usize,
            },
            claimed: true,
        }),
{
    let d = queue.q_depth as int;
    let n = done.len() as int;
    if n > d {
        lemma_steps_add_up(queue, 0);
        lemma_steps_add_up(queue, d);
        assert(step_after(stepped(queue, 0), head_entry(stepped(queue, 0), looks[0])) is Take);
        assert(step_after(stepped(queue, d), head_entry(stepped(queue, d), looks[d])) is Take);
        assert(false);
    }
    assert forall|j: int| 0 <= j < n implies #[trigger] is_new(queue, ring, j) by {
        lemma_steps_add_up(queue, j);
        assert(step_after(stepped(queue, j), head_entry(stepped(queue, j), looks[j])) is Take);
    }
    assert forall|j: int| 0 <= j < n implies #[trigger] done[j] == outcome(
        ring[queue.slot(j)],
    ) by {
        lemma_steps_add_up(queue, j);
        assert(reads[j].ring == ring);
    }
    lemma_steps_add_up(queue, n);
    assert(looks[n].ring == ring);
}

/// For up to one round, single steps add up.
proof fn lemma_steps_add_up(queue: NvmeQueue, n: int)
    requires
        queue.wf(),
        0 <= n <= queue.q_depth,
    ensures
        stepped(queue, n) == queue.moved(n),
    decreases n,
{
    if n > 0 {
        lemma_steps_add_up(queue, n - 1);
    }
}

/// Two interrupts in a row hand over, one after the other, what the device posted before the
/// second one, with nothing missing and nothing twice between them.
pub proof fn law_irqs_in_a_row(
    queue: NvmeQueue,
    ring1: Seq<NvmeCompletion>,
    mid: NvmeQueue,
    done1: Seq<Completed>,
    posted1: Seq<NvmeCompletion>,
    ring2: Seq<NvmeCompletion>,
    after: NvmeQueue,
    done2: Seq<Completed>,
    posted2: Seq<NvmeCompletion>,
    k: int,
)
    requires
        looks_for(queue, k),
        ring_holds(ring1, queue.q_depth as int, posted1),
        k <= posted1.len() <= k + queue.q_depth,
        handled(queue, ring1, mid, done1),
        posted1.is_prefix_of(posted2),
        ring_holds(ring2, queue.q_depth as int, posted2),
        posted2.len() <= posted1.len() + queue.q_depth,
        handled(mid, ring2, after, done2),
    ensures
        done1 + done2 =~= posted2.skip(k).map_values(|c: NvmeCompletion| outcome(c)),
        looks_for(after, posted2.len() as int),
{
    law_irq_hands_over_each_completion_once(queue, ring1, mid, done1, posted1, k);
    law_irq_hands_over_each_completion_once(
        mid,
        ring2,
        after,
        done2,
        posted2,
        posted1.len() as int,
    );
    let all = posted2.skip(k).map_values(|c: NvmeCompletion| outcome(c));
    assert forall|i: int| 0 <= i < all.len() implies (done1 + done2)[i] == all[i] by {
        if i < done1.len() {
            assert(done1[i] == outcome(posted1[k + i]));
            assert(posted1[k + i] == posted2[k + i]);
        } else {
            let j = i - done1.len();
            assert(done2[j] == outcome(posted2[posted1.len() + j]));
        }
    }
}

/// An interrupt that comes while the device posts nothing finds nothing, whatever the ring holds.
pub proof fn law_irq_leaves_nothing_new(
    queue: NvmeQueue,
    ring: Seq<NvmeCompletion>,
    mid: NvmeQueue,
    done: Seq<Completed>,
    after: NvmeQueue,
    again: Seq<Completed>,
)
    requires
        queue.wf(),
        handled(queue, ring, mid, done),
        handled(mid, ring, after, again),
    ensures
        again.len() == 0,
        after == mid,
{
    if again.len() > 0 {
        assert(is_new(mid, ring, 0));
    }
}

/// Over any number of interrupts, whatever the completion entries hold at each of them, the head
/// stays an entry of the queue and the phase stays one bit; so every entry that an interrupt looks
/// at, up to the one that it stops at, is an entry of the queue.
pub proof fn law_head_and_phase_stay_in_range(
    queues: Seq<NvmeQueue>,
    rings: Seq<Seq<NvmeCompletion>>,
    dones: Seq<Seq<Completed>>,
    i: int,
)
    requires
        0 <= i < queues.len(),
        queues[0].wf(),
        queues[0].cq_phase <= 1,
        forall|k: int|
            0 <= k < queues.len() - 1 ==> #[trigger] handled(
                queues[k],
                rings[k],
                queues[k + 1],
                dones[k],
            ),
    ensures
        queues[i].wf(),
        queues[i].cq_phase <= 1,
        queues[i].q_depth == queues[0].q_depth,
        i < queues.len() - 1 ==> forall|j: int|
            0 <= j <= dones[i].len() ==> 0 <= #[trigger] queues[i].slot(j) < queues[0].q_depth,
    decreases i,
{
    if i > 0 {
        law_head_and_phase_stay_in_range(queues, rings, dones, i - 1);
        let k = i - 1;
        assert(handled(queues[k], rings[k], queues[k + 1], dones[k]));
        assert(0 <= queues[k].slot(dones[k].len() as int) < queues[0].q_depth);
    }
    if i < queues.len() - 1 {
        assert(handled(queues[i], rings[i], queues[i + 1], dones[i]));
    }
}

/// However many entries are taken one by one, whatever they hold, the head stays an entry of the
/// queue, the phase stays one bit, and nothing else of the queue changes.
pub proof fn law_steps_stay_in_range(queue: NvmeQueue, n: int)
    requires
        queue.wf(),
        queue.cq_phase <= 1,
    ensures
        stepped(queue, n).wf(),
        stepped(queue, n).cq_phase <= 1,
        stepped(queue, n) == (NvmeQueue {
            cq_head: stepped(queue, n).cq_head,
            cq_phase: stepped(queue, n).cq_phase,
            ..queue
        }),
    decreases n,
{
    if n > 0 {
        law_steps_stay_in_range(queue, n - 1);
    }
}

/// The phase that the driver looks for stays one bit.
pub proof fn law_phase_stays_one_bit(queue: NvmeQueue, j: int)
    requires
        queue.cq_phase <= 1,
    ensures
        queue.moved(j).cq_phase <= 1,
{
}

/// The doorbell of a completion queue is four bytes behind that of its submission queue, and is
/// told the head.
pub proof fn law_doorbell_is_told_the_head(queue: &NvmeQueue, op: BarOp)
    requires
        queue.db_offset + 4 <= usize::MAX,
        call_ensures(cq_doorbell, (queue,), op),
    ensures
        call_requires(cq_doorbell, (queue,)),
        op matches BarOp::Writel { word, offset } && word == queue.cq_head && offset
            == queue.db_offset + 4,
{
}

/// A look at the head leads to one of two steps: if the phase tag there is the phase that is
/// looked for, the entry at the head is taken; if not, the doorbell four bytes behind that of the
/// submission queue is told the head, and the interrupt is claimed.
pub proof fn law_look_decides_by_the_phase_tag(
    queue: &NvmeQueue,
    cqe: &NvmeCompletion,
    step: IrqStep,
)
    requires
        queue.db_offset + 4 <= usize::MAX,
        call_ensures(irq_step, (queue, cqe), step),
    ensures
        call_requires(irq_step, (queue, cqe)),
        match step {
            IrqStep::Take { index } => {
                &&& cqe.status % 2 == queue.cq_phase
                &&& index == queue.cq_head
            },
            IrqStep::Ring { doorbell, claimed } => {
                &&& cqe.status % 2 != queue.cq_phase
                &&& doorbell matches BarOp::Writel { word, offset }
                &&& word == queue.cq_head
                &&& offset == queue.db_offset + 4
                &&& claimed
            },
        },
{
}

/// An interrupt, whatever the entries hold: it takes entries one after the other from the head on,
/// from the last one over to the first, each with its identifier, its whole result and its whole
/// status. It stops in front of the first entry that does not have the phase tag of its round,
/// which is the one that it tells the doorbell. It is claimed, and nothing else of the queue pair
/// changes.
pub proof fn law_irq_takes_entries_up_to_the_first_old_one(
    queue: &mut NvmeQueue,
    ring: &Vec<NvmeCompletion>,
    out: IrqOutcome,
)
    requires
        old(queue).cq_head < old(queue).q_depth <= ring@.len(),
        old(queue).db_offset + 4 <= usize::MAX,
        call_ensures(handle_irq, (queue, ring), out),
    ensures
        call_requires(handle_irq, (queue, ring)),
        ({
            let head = old(queue).cq_head as int;
            let depth = old(queue).q_depth as int;
            let n = out.done@.len() as int;
            let entry = |j: int| ring@[if head + j < depth { head + j } else { head + j - depth }];
            let tag = |j: int|
                if head + j < depth {
                    old(queue).cq_phase as int
                } else {
                    1 - old(queue).cq_phase
                };
            &&& n <= depth
            &&& forall|j: int|
                0 <= j < n ==> {
                    &&& (#[trigger] out.done@[j]).tag == entry(j).command_id
                    &&& out.done@[j].result == entry(j).result
                    &&& 2 * out.done@[j].status + tag(j) == entry(j).status
                }
            &&& entry(n).status % 2 != tag(n)
            &&& final(queue).cq_head == if head + n < depth { head + n } else { head + n - depth }
            &&& final(queue).cq_phase == tag(n)
            &&& out.doorbell matches BarOp::Writel { word, offset }
            &&& word == final(queue).cq_head
            &&& offset == old(queue).db_offset + 4
        }),
        out.claimed,
        *final(queue) == (NvmeQueue {
            cq_head: final(queue).cq_head,
            cq_phase: final(queue).cq_phase,
            ..*old(queue)
        }),
{
    let before = *old(queue);
    assert forall|j: int| 0 <= j < out.done@.len() implies {
        &&& (#[trigger] out.done@[j]).tag == ring@[before.slot(j)].command_id
        &&& out.done@[j].result == ring@[before.slot(j)].result
        &&& 2 * out.done@[j].status + before.tag_at(j) == ring@[before.slot(j)].status
    } by {
        assert(is_new(before, ring@, j));
    }
    if out.done@.len() > 0 {
        assert(is_new(before, ring@, 0));
    }
}

/// Between the device and the driver: of all completions that the device ever posts, an interrupt
/// hands over those from the first one that was not handed over yet to the last one that is there,
/// each once, in their order, with identifier, whole result and whole status as the device posted
/// them. The next interrupt goes on from there, and the doorbell is told where that is.
pub proof fn law_irq_delivers_what_the_device_posted(
    queue: &mut NvmeQueue,
    ring: &Vec<NvmeCompletion>,
    out: IrqOutcome,
    posted: Seq<NvmeCompletion>,
    k: int,
)
    requires
        looks_for(*old(queue), k),
        ring_holds(ring@, old(queue).q_depth as int, posted),
        k <= posted.len() <= k + old(queue).q_depth,
        call_ensures(handle_irq, (queue, ring), out),
    ensures
        out.done@.len() == posted.len() - k,
        forall|j: int|
            0 <= j < out.done@.len() ==> {
                &&& (#[trigger] out.done@[j]).tag == posted[k + j].command_id
                &&& out.done@[j].result == posted[k + j].result
                &&& out.done@[j].status == posted[k + j].status / 2
            },
        looks_for(*final(queue), posted.len() as int),
        out.doorbell matches BarOp::Writel { word, offset } && word == posted.len() as int
            % old(queue).q_depth as int,
        out.claimed,
{
    law_irq_hands_over_each_completion_once(
        *old(queue),
        ring@,
        *final(queue),
        out.done@,
        posted,
        k,
    );
}

/// One step of an interrupt, while the device may post at any time: at a look the head is taken
/// exactly if the device has posted the completion that is looked for; what is then read there,
/// which may be later, is that completion, and it is handed over with its identifier, its whole
/// result and its whole status. After that the next one is looked for.
pub proof fn law_step_delivers_the_next_completion(
    queue: &mut NvmeQueue,
    look: Seq<NvmeCompletion>,
    seen: Seq<NvmeCompletion>,
    step: IrqStep,
    read: Seq<NvmeCompletion>,
    posted: Seq<NvmeCompletion>,
    done: Completed,
    k: int,
)
    requires
        looks_for(*old(queue), k),
        ring_holds(look, old(queue).q_depth as int, seen),
        ring_holds(read, old(queue).q_depth as int, posted),
        seen.is_prefix_of(posted),
        k <= seen.len() <= posted.len() <= k + old(queue).q_depth,
        call_ensures(irq_step, (&*old(queue), &look[old(queue).cq_head as int]), step),
        call_ensures(NvmeQueue::take_cqe, (queue, &read[old(queue).cq_head as int]), done),
    ensures
        step is Take <==> k < seen.len(),
        step is Take ==> {
            &&& done.tag == posted[k].command_id
            &&& done.result == posted[k].result
            &&& done.status == posted[k].status / 2
        },
        looks_for(*final(queue), k + 1),
{
    law_step_takes_the_next_completion(*old(queue), look, seen, k);
    law_step_takes_the_next_completion(*old(queue), read, posted, k);
}

} // verus!
