use rust_nvme::defs::{NvmeCommand, NvmeIdNs, NvmeLbaf};
use rust_nvme::disk::{format_is_usable, name_disk, plan_disk};
use rust_nvme::mq::{BlkParams, QueueKind};
use rust_nvme::probe::{
    config_admin_queue, ioremap, IoMem, Probe, ProbeAction, ProbeError, ProbeEvent, ProbeParams, Stage,
};
use rust_nvme::queue::{NvmeQueue, QueueParams, QueuePlace};

fn params() -> ProbeParams {
    ProbeParams {
        depth: 64,
        blk: BlkParams { hz: 100, pdu_size: 512, no_sched: 8 },
        sector_shift: 9,
        major: 259,
    }
}

fn namespace(ncap: u64, ds: u8) -> NvmeIdNs {
    let mut lbaf = [NvmeLbaf { ms: 0, ds: 9, rp: 0 }; 16];
    lbaf[2].ds = ds;
    NvmeIdNs { nsze: 1000, ncap, flbas: 0xf2, lbaf }
}

/// Answers every action as a host that refuses nothing.
fn answer(action: &ProbeAction, ncap: u64, allocated: &mut u64) -> ProbeEvent {
    match action {
        ProbeAction::SelectBars => ProbeEvent::Bars { bars: 17 },
        ProbeAction::TakeResource { .. } => {
            ProbeEvent::Resource { bar: IoMem { offset: 0xfe00_0000, size: 0x4000 } }
        }
        ProbeAction::CreateQueue { params } => ProbeEvent::QueueAt {
            place: QueuePlace {
                sq_dma_handle: 0x1_0000 + params.qid as u64,
                cq_dma_handle: 0x2_0000 + params.qid as u64,
                db_offset: 0x1000 + 8 * params.qid as usize,
            },
        },
        ProbeAction::AllocDma { .. } => {
            *allocated += 0x10_0000;
            ProbeEvent::DmaAt { handle: *allocated }
        }
        ProbeAction::MapBar { .. } => ProbeEvent::MappedAt { addr: Some(0xffff_0000) },
        ProbeAction::SubmitAndRead { .. } => ProbeEvent::Identified { ns: namespace(ncap, 12) },
        _ => ProbeEvent::Done,
    }
}

fn run(ncap: u64) -> (Probe, Vec<ProbeAction>) {
    let mut probe = Probe::new(params());
    let mut allocated = 0;
    let mut actions = Vec::new();
    loop {
        let action = probe.action();
        actions.push(action);
        if action == ProbeAction::Finish {
            return (probe, actions);
        }
        let event = answer(&action, ncap, &mut allocated);
        assert!(probe.accepts(&event));
        probe.advance(&event);
    }
}

fn advance_to(stage: Stage) -> Probe {
    let mut probe = Probe::new(params());
    let mut allocated = 0;
    while probe.stage != stage {
        let action = probe.action();
        probe.advance(&answer(&action, 1, &mut allocated));
    }
    probe
}

#[test]
fn device_is_taken_into_use() {
    let (probe, actions) = run(1000);
    assert_eq!(actions.len(), 34);
    assert_eq!(probe.stage, Stage::Finished);
    assert_eq!(actions[1], ProbeAction::RequestRegions { bars: 17 });
    assert_eq!(actions[4], ProbeAction::AllocIrqVectors { min: 2, max: 2 });
    assert_eq!(actions[5], ProbeAction::SetDmaMask { mask: u64::MAX });
    assert_eq!(actions[6], ProbeAction::SetCoherentMask { mask: u64::MAX });
    assert_eq!(actions[7], ProbeAction::TakeResource { index: 0 });
    assert_eq!(
        actions[8],
        ProbeAction::MapBar { bar: IoMem { offset: 0xfe00_0000, size: 0x4000 } }
    );
    assert_eq!(actions[24], ProbeAction::AllocDma { bytes: 8192 });
    assert_eq!(probe.data.db_stride, 0);
    assert_eq!(probe.data.bar_ptr, 0xffff_0000);
    match (actions[29], actions[30]) {
        (ProbeAction::AllocDisk { tags, queue }, ProbeAction::SetUpDisk { disk }) => {
            assert_eq!((queue.qid, queue.sq_dma_handle), (1, 0x1_0001));
            assert_eq!(queue, probe.io_queue);
            assert_eq!(tags.queue_depth, 1024);
            assert_eq!(disk.capacity, 8000);
            assert_eq!(disk.name, [110, 118, 109, 101, 48, 110, 49]);
            assert_eq!((disk.major, disk.minors, disk.max_segments), (259, 64, 16));
            assert_eq!((disk.ns.id, disk.ns.lba_shift), (1, 9));
            assert_eq!(actions[31], ProbeAction::AddDisk { disk });
        }
        other => panic!("{:?}", other),
    }
    assert_eq!(actions[32], ProbeAction::BuildDeviceData);
}

#[test]
fn tags_are_allocated_three_times() {
    let (_, actions) = run(1000);
    let mut sets = Vec::new();
    for a in &actions {
        if let ProbeAction::AllocTags { set } = a {
            sets.push(*set);
        }
    }
    assert_eq!(sets.len(), 3);
    assert_eq!((sets[0].ops, sets[0].queue_depth, sets[0].flags), (QueueKind::Admin, 1024, 8));
    assert_eq!((sets[1].ops, sets[1].queue_depth, sets[1].flags), (QueueKind::Io, 64, 0));
    assert_eq!((sets[2].ops, sets[2].queue_depth, sets[2].flags), (QueueKind::Io, 1024, 8));
    for set in sets {
        assert_eq!((set.nr_hw_queues, set.timeout), (1, 3000));
        assert_eq!((set.numa_node, set.cmd_size), (-1, 512));
    }
}

#[test]
fn queues_and_interrupts() {
    let (_, actions) = run(1000);
    assert_eq!(
        actions[14],
        ProbeAction::CreateQueue {
            params: QueueParams { qid: 0, q_depth: 64, cq_vector: 0, polled: false, doorbell: 0 },
        }
    );
    assert_eq!(
        actions[15],
        ProbeAction::CreateQueue {
            params: QueueParams { qid: 1, q_depth: 64, cq_vector: 1, polled: false, doorbell: 4 },
        }
    );
    match (actions[17], actions[18]) {
        (
            ProbeAction::RegisterIrq { irq: a, vector: 0 },
            ProbeAction::RegisterIrq { irq: b, vector: 1 },
        ) => {
            assert_eq!((a.queue.qid, a.tag.set.ops), (0, QueueKind::Admin));
            assert_eq!((b.queue.qid, b.tag.set.ops), (1, QueueKind::Io));
            assert_eq!(b.queue.db_offset, 0x1008);
        }
        other => panic!("{:?}", other),
    }
    match actions[19] {
        ProbeAction::Configure { depth, queue } => {
            assert_eq!(depth, 64);
            assert_eq!(queue.sq_dma_handle, 0x1_0000);
            assert_eq!(config_admin_queue(depth, &queue).len(), 6);
        }
        other => panic!("{:?}", other),
    }
}

#[test]
fn commands_in_order() {
    let (_, actions) = run(1000);
    let mut opcodes = Vec::new();
    for a in &actions {
        let cmd = match a {
            ProbeAction::Submit { cmd } => cmd.as_common(),
            ProbeAction::SubmitAndRead { cmd, handle } => {
                assert_eq!(cmd.as_common().prp1, *handle);
                assert!(matches!(cmd, NvmeCommand::Identify(c) if c.cns == 0));
                cmd.as_common()
            }
            _ => continue,
        };
        opcodes.push((cmd.opcode, cmd.nsid, cmd.prp1));
    }
    assert_eq!(
        opcodes,
        vec![
            (9, 0, 0),
            (5, 0, 0x2_0001),
            (1, 0, 0x1_0001),
            (6, 0, 0x10_0000),
            (6, 1, 0x10_0000),
            (10, 1, 0x20_0000),
        ]
    );
}

#[test]
fn namespace_without_capacity_gets_no_disk() {
    let (probe, actions) = run(0);
    assert_eq!(probe.stage, Stage::Finished);
    assert!(probe.disk.is_none());
    assert_eq!(actions.len(), 30);
    assert_eq!(actions[28], ProbeAction::BuildDeviceData);
}

#[test]
fn refusals_end_it() {
    for stage in [
        Stage::RequestRegions,
        Stage::EnableMem,
        Stage::AllocIrqVectors,
        Stage::SetDmaMask,
        Stage::SetCoherentMask,
        Stage::BuildDeviceData,
    ] {
        let mut probe = advance_to(stage);
        probe.advance(&ProbeEvent::Refused { errno: -12 });
        let error = ProbeError::Host { errno: -12 };
        assert_eq!(probe.stage, Stage::Failed { error });
        assert_eq!(probe.action(), ProbeAction::Fail { error });
    }
}

#[test]
fn missing_registers_end_it() {
    let mut probe = advance_to(Stage::TakeResource);
    probe.advance(&ProbeEvent::NoResource);
    assert_eq!(probe.action(), ProbeAction::Fail { error: ProbeError::NoResource });
}

#[test]
fn attached_and_stored_queues_are_the_same() {
    let (_, actions) = run(1000);
    let place = |qid: u64| QueuePlace {
        sq_dma_handle: 0x1_0000 + qid,
        cq_dma_handle: 0x2_0000 + qid,
        db_offset: 0x1000 + 8 * qid as usize,
    };
    let admin = NvmeQueue::new(
        &QueueParams { qid: 0, q_depth: 64, cq_vector: 0, polled: false, doorbell: 0 },
        &place(0),
    );
    let io = NvmeQueue::new(
        &QueueParams { qid: 1, q_depth: 64, cq_vector: 1, polled: false, doorbell: 4 },
        &place(1),
    );
    assert_eq!(actions[16], ProbeAction::AttachQueues { admin, io });
    assert_eq!(actions[23], ProbeAction::StoreQueues { admin, io });
    match actions[29] {
        ProbeAction::AllocDisk { queue, .. } => assert_eq!(queue, io),
        other => panic!("{:?}", other),
    }
}

#[test]
fn disk_sizes() {
    let disk = |nsze: u64, ds: u8| {
        let mut ns = namespace(1, ds);
        ns.nsze = nsze;
        plan_disk(&ns, 1, 0, 9).unwrap().capacity
    };
    assert_eq!(disk(1000, 9), 1000);
    assert_eq!(disk(1000, 12), 8000);
    assert_eq!(disk(1 << 63, 10), 0);
    assert_eq!(disk(1, 72), 1 << 63);
    assert!(plan_disk(&namespace(0, 9), 1, 0, 9).is_none());
}

#[test]
fn usable_formats() {
    assert!(format_is_usable(&namespace(1, 9), 9));
    assert!(format_is_usable(&namespace(1, 72), 9));
    assert!(!format_is_usable(&namespace(1, 8), 9));
    assert!(!format_is_usable(&namespace(1, 73), 9));
    assert!(format_is_usable(&namespace(0, 8), 9));
}

#[test]
fn disk_name_in_its_field() {
    let mut field = [5i8; 32];
    let disk = plan_disk(&namespace(1, 9), 1, 0, 9).unwrap();
    name_disk(&disk, &mut field);
    let name: Vec<u8> = field[..7].iter().map(|c| *c as u8).collect();
    assert_eq!(name, b"nvme0n1".to_vec());
    assert!(field[7..].iter().all(|c| *c == 5));
}

#[test]
fn registers_that_cannot_be_mapped_are_at_zero() {
    assert_eq!(ioremap(Some(0xffff_0000)), 0xffff_0000);
    assert_eq!(ioremap(None), 0);
    let mut probe = advance_to(Stage::MapBar);
    probe.advance(&ProbeEvent::MappedAt { addr: None });
    assert_eq!((probe.stage, probe.data.bar_ptr), (Stage::AllocAdminTags, 0));
}

#[test]
fn only_answers_to_the_action_are_accepted() {
    let probe = Probe::new(params());
    assert!(probe.accepts(&ProbeEvent::Bars { bars: 1 }));
    assert!(!probe.accepts(&ProbeEvent::Done));
    assert!(!probe.accepts(&ProbeEvent::Refused { errno: -12 }));
    assert!(!probe.accepts(&ProbeEvent::MappedAt { addr: None }));
    let probe = advance_to(Stage::SetDmaMask);
    assert!(probe.accepts(&ProbeEvent::Done));
    assert!(probe.accepts(&ProbeEvent::Refused { errno: -12 }));
    assert!(!probe.accepts(&ProbeEvent::NoResource));
    let (finished, _) = run(1000);
    assert!(!finished.accepts(&ProbeEvent::Done));
}

#[test]
fn unusable_format_shows_after_the_disk_is_allocated() {
    for ds in [8, 73] {
        let mut probe = advance_to(Stage::IdentifyNamespace);
        let event = ProbeEvent::Identified { ns: namespace(1, ds) };
        assert!(probe.accepts(&event));
        probe.advance(&event);
        assert_eq!(probe.stage, Stage::GetLbaRange);
        probe.advance(&ProbeEvent::Done);
        assert!(matches!(probe.action(), ProbeAction::AllocDisk { .. }));
        assert!(!probe.accepts(&ProbeEvent::Done));
    }
}
