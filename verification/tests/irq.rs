use rust_nvme::defs::{BarOp, NvmeCompletion};
use rust_nvme::irq::{cq_doorbell, handle_irq, irq_step, IrqStep};
use rust_nvme::queue::{Completed, NvmeQueue, NvmeQueues, QueueParams, QueuePlace};

fn queue(depth: u16) -> NvmeQueue {
    NvmeQueue::new(
        &QueueParams { qid: 1, q_depth: depth, cq_vector: 1, polled: false, doorbell: 4 },
        &QueuePlace { sq_dma_handle: 0x1000, cq_dma_handle: 0x2000, db_offset: 0x1008 },
    )
}

fn entry(id: u16, status: u16) -> NvmeCompletion {
    NvmeCompletion { result: 100 + id as u32, sq_head: 0, sq_id: 1, command_id: id, status }
}

fn fresh_ring(depth: u16) -> Vec<NvmeCompletion> {
    (0..depth).map(|_| entry(0, 0)).collect()
}

#[test]
fn new_queue_starts_at_the_first_entry() {
    let q = queue(4);
    assert_eq!((q.cq_head, q.cq_phase), (0, 1));
    assert_eq!((q.qid, q.q_depth, q.cq_vector, q.polled), (1, 4, 1, false));
    assert_eq!((q.sq_dma_handle, q.cq_dma_handle, q.db_offset), (0x1000, 0x2000, 0x1008));
}

#[test]
fn empty_ring_is_claimed_and_rings_the_doorbell() {
    let mut q = queue(4);
    let out = handle_irq(&mut q, &fresh_ring(4));
    assert!(out.done.is_empty());
    assert!(out.claimed);
    assert_eq!(out.doorbell, BarOp::Writel { word: 0, offset: 0x100c });
    assert_eq!((q.cq_head, q.cq_phase), (0, 1));
}

#[test]
fn new_entries_are_taken_in_order() {
    let mut q = queue(4);
    let mut ring = fresh_ring(4);
    ring[0] = entry(7, 1);
    ring[1] = entry(3, 5);
    let out = handle_irq(&mut q, &ring);
    assert_eq!(
        out.done,
        vec![
            Completed { tag: 7, result: 107, status: 0 },
            Completed { tag: 3, result: 103, status: 2 },
        ]
    );
    assert_eq!(out.doorbell, BarOp::Writel { word: 2, offset: 0x100c });
    assert_eq!((q.cq_head, q.cq_phase), (2, 1));
}

#[test]
fn full_ring_is_taken_once() {
    let mut q = queue(4);
    let ring: Vec<NvmeCompletion> = (0..4).map(|i| entry(i, 1)).collect();
    let out = handle_irq(&mut q, &ring);
    assert_eq!(out.done.len(), 4);
    assert_eq!((q.cq_head, q.cq_phase), (0, 0));
}

#[test]
fn phase_changes_when_the_ring_starts_over() {
    let mut q = queue(4);
    q.cq_head = 3;
    let ring = vec![entry(10, 0), entry(11, 1), entry(12, 1), entry(13, 1)];
    let out = handle_irq(&mut q, &ring);
    let tags: Vec<u32> = out.done.iter().map(|d| d.tag).collect();
    assert_eq!(tags, vec![13, 10]);
    assert_eq!((q.cq_head, q.cq_phase), (1, 0));
}

#[test]
fn second_interrupt_finds_nothing() {
    let mut q = queue(4);
    let mut ring = fresh_ring(4);
    ring[0] = entry(7, 1);
    handle_irq(&mut q, &ring);
    let before = q;
    let out = handle_irq(&mut q, &ring);
    assert!(out.done.is_empty());
    assert_eq!(q, before);
}

#[test]
fn many_rounds_hand_over_everything_once() {
    let depth: u16 = 5;
    let mut q = queue(depth);
    let mut ring = fresh_ring(depth);
    let mut posted: u16 = 0;
    let mut seen: Vec<u32> = Vec::new();
    for burst in [1u16, 5, 0, 3, 2, 4, 5, 5, 1, 2] {
        for _ in 0..burst {
            let tag = 1 - (posted / depth) % 2;
            ring[(posted % depth) as usize] = entry(posted, tag);
            posted += 1;
        }
        for d in handle_irq(&mut q, &ring).done {
            seen.push(d.tag);
        }
    }
    assert_eq!(seen, (0..posted as u32).collect::<Vec<u32>>());
}

#[test]
fn single_steps_follow_the_phase() {
    let mut q = queue(2);
    assert!(q.cqe_pending(&entry(9, 3)));
    assert!(!q.cqe_pending(&entry(9, 2)));
    assert_eq!(q.take_cqe(&entry(9, 3)), Completed { tag: 9, result: 109, status: 1 });
    assert_eq!((q.cq_head, q.cq_phase), (1, 1));
    q.take_cqe(&entry(8, 1));
    assert_eq!((q.cq_head, q.cq_phase), (0, 0));
    assert!(q.cqe_pending(&entry(9, 2)));
}

#[test]
fn phase_that_is_no_bit_matches_nothing() {
    let mut q = queue(2);
    q.cq_phase = 2;
    let out = handle_irq(&mut q, &vec![entry(1, 1), entry(2, 0)]);
    assert!(out.done.is_empty());
    assert_eq!(q.cq_phase, 2);
}

#[test]
fn entries_beyond_the_depth_are_not_looked_at() {
    let mut q = queue(2);
    let out = handle_irq(&mut q, &vec![entry(1, 1), entry(2, 1), entry(3, 1), entry(4, 1)]);
    let tags: Vec<u32> = out.done.iter().map(|d| d.tag).collect();
    assert_eq!(tags, vec![1, 2]);
    assert_eq!((q.cq_head, q.cq_phase), (0, 0));
}

#[test]
fn head_and_phase_stay_in_range() {
    let mut q = queue(3);
    for bits in 0..64u16 {
        let ring = vec![entry(1, bits), entry(2, bits / 2), entry(3, bits / 4)];
        handle_irq(&mut q, &ring);
        assert!(q.cq_head < q.q_depth);
        assert!(q.cq_phase <= 1);
    }
}

#[test]
fn doorbell_is_behind_the_submission_doorbell() {
    let mut q = queue(8);
    q.cq_head = 6;
    assert_eq!(cq_doorbell(&q), BarOp::Writel { word: 6, offset: 0x100c });
}

#[test]
fn stored_queues() {
    let mut queues = NvmeQueues::new();
    assert!(queues.admin_queue.is_none());
    assert!(queues.io_queues.is_empty());
    queues.store(queue(2), queue(3));
    queues.store(queue(4), queue(5));
    assert_eq!(queues.admin_queue, Some(queue(4)));
    assert_eq!(queues.io_queues, vec![queue(3), queue(5)]);
}

#[test]
fn steps_of_an_interrupt() {
    let mut q = queue(4);
    q.cq_head = 3;
    assert_eq!(irq_step(&q, &entry(9, 3)), IrqStep::Take { index: 3 });
    assert_eq!(
        irq_step(&q, &entry(9, 2)),
        IrqStep::Ring { doorbell: BarOp::Writel { word: 3, offset: 0x100c }, claimed: true }
    );
    q.cq_phase = 0;
    assert_eq!(irq_step(&q, &entry(9, 2)), IrqStep::Take { index: 3 });
}

/// Goes through the ring step by step; the device posts completion number `posted` at each look
/// until there are `limit`.
fn run_steps(
    q: &mut NvmeQueue,
    ring: &mut Vec<NvmeCompletion>,
    posted: &mut u16,
    limit: u16,
) -> (Vec<Completed>, IrqStep) {
    let depth = q.q_depth;
    let mut done = Vec::new();
    loop {
        let look = ring[q.cq_head as usize];
        if *posted < limit {
            ring[(*posted % depth) as usize] = entry(*posted, 1 - (*posted / depth) % 2);
            *posted += 1;
        }
        match irq_step(q, &look) {
            IrqStep::Take { index } => done.push(q.take_cqe(&ring[index])),
            last => return (done, last),
        }
    }
}

#[test]
fn growing_ring_is_handed_over_once() {
    let mut q = queue(5);
    let mut ring = fresh_ring(5);
    let mut posted: u16 = 0;
    let mut seen = Vec::new();
    for limit in [1u16, 4, 4, 9, 12, 16] {
        loop {
            let (done, last) = run_steps(&mut q, &mut ring, &mut posted, limit);
            seen.extend(done.iter().map(|d| d.tag));
            let doorbell = BarOp::Writel { word: q.cq_head as u32, offset: 0x100c };
            assert_eq!(last, IrqStep::Ring { doorbell, claimed: true });
            if seen.len() == limit as usize {
                break;
            }
        }
    }
    assert_eq!(seen, (0..16u32).collect::<Vec<u32>>());
    assert_eq!((q.cq_head, q.cq_phase), (1, 0));
}

#[test]
fn still_ring_is_handled_alike_by_steps() {
    for taken in 0..5u16 {
        let mut ring: Vec<NvmeCompletion> = (0..taken).map(|i| entry(i, 1)).collect();
        ring.extend((taken..4).map(|i| entry(i, 0)));
        let (mut a, mut b) = (queue(4), queue(4));
        let out = handle_irq(&mut a, &ring);
        let (done, last) = run_steps(&mut b, &mut ring, &mut 0, 0);
        assert_eq!(out.done, done);
        assert_eq!(last, IrqStep::Ring { doorbell: out.doorbell, claimed: out.claimed });
        assert_eq!(a, b);
    }
}
