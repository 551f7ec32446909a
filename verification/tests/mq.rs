use rust_nvme::admin::identify;
use rust_nvme::defs::{NvmeCommand, NvmeCommon, NvmeRw};
use rust_nvme::mq::{
    deliver, id_of_tag, submit_sync_command, Adapter, BlkAdminOps, BlkIoOps, BlkParams, BlkRqOps,
    CompleteStep, DmaDirection, Pdu, QueueKind, QueueStep, Request, RequestQueue, SyncCommand,
    SyncStep, Tag, Unmap, BLK_STS_OK,
};
use rust_nvme::prp::{ScatterList, MAX_SG};
use rust_nvme::queue::Completed;

const OP_BITS: u32 = 0xff;

fn request(segments: u16) -> Request {
    Request {
        tag: 5,
        cmd_flags: 0,
        payload_bytes: 8192,
        bytes: 8192,
        pos: 0x1_0000_0001,
        nr_phys_segments: segments,
    }
}

fn table(segments: &[(u64, u32)]) -> [ScatterList; MAX_SG] {
    let mut sg = [ScatterList { dma_address: 0, dma_length: 0 }; MAX_SG];
    for (i, (dma_address, dma_length)) in segments.iter().enumerate() {
        sg[i] = ScatterList { dma_address: *dma_address, dma_length: *dma_length };
    }
    sg
}

fn submitted(step: QueueStep) -> NvmeRw {
    match step {
        QueueStep::Submit { cmd: NvmeCommand::Rw(rw), bell: true, status: BLK_STS_OK } => rw,
        other => panic!("{:?}", other),
    }
}

#[test]
fn default_pdu_is_empty() {
    let pdu = Pdu::default();
    assert_eq!(pdu.cmnd, NvmeCommand::Common(NvmeCommon::default()));
    assert_eq!((pdu.status, pdu.result, pdu.nents), (0, 0, 0));
    assert_eq!(pdu.sg, table(&[]));
}

#[test]
fn tag_set_of_a_request_queue() {
    let mut tag = Tag::new::<BlkIoOps>();
    assert_eq!(tag.set.ops, QueueKind::Io);
    assert_eq!((tag.set.nr_hw_queues, tag.set.queue_depth, tag.set.flags), (0, 0, 0));
    let rq = RequestQueue::new(&mut tag, &BlkParams { hz: 250, pdu_size: 640, no_sched: 8 });
    assert_eq!(rq.ops, QueueKind::Io);
    assert_eq!(tag.set.ops, QueueKind::Io);
    assert_eq!(tag.set.nr_hw_queues, 1);
    assert_eq!(tag.set.queue_depth, 1024);
    assert_eq!(tag.set.timeout, 7500);
    assert_eq!(tag.set.numa_node, -1);
    assert_eq!(tag.set.cmd_size, 640);
    assert_eq!(tag.set.flags, 8);
    assert_eq!(Tag::new::<BlkAdminOps>().set.ops, QueueKind::Admin);
}

#[test]
fn setup_functions_answer_zero() {
    assert_eq!(Adapter::<BlkAdminOps>::init_request(), 0);
    assert_eq!(Adapter::<BlkAdminOps>::init_hctx(), 0);
    assert_eq!(Adapter::<BlkIoOps>::init_request(), 0);
    assert_eq!(Adapter::<BlkIoOps>::init_hctx(), 0);
    assert_eq!(BlkAdminOps::kind(), QueueKind::Admin);
    assert_eq!(BlkIoOps::kind(), QueueKind::Io);
}

#[test]
fn identifiers_are_the_lower_half_of_tags() {
    assert_eq!(id_of_tag(0), 0);
    assert_eq!(id_of_tag(1023), 1023);
    assert_eq!(id_of_tag(0x1_0002), 2);
    assert_eq!(id_of_tag(-1), 0xffff);
    assert_eq!(id_of_tag(i32::MIN), 0);
    for tag in 0..1024 {
        assert_eq!(id_of_tag(tag) as i32, tag);
    }
}

#[test]
fn request_without_segments_is_submitted_at_once() {
    let mut pdu = Pdu::default();
    pdu.nents = 3;
    let rw = submitted(Adapter::<BlkIoOps>::queue_rq(&mut pdu, &request(0), OP_BITS));
    assert_eq!(pdu.nents, 0);
    assert_eq!(
        rw,
        NvmeRw {
            opcode: 0x01,
            command_id: 5,
            nsid: 1,
            slba: 0x1_0000_0001,
            length: 15,
            ..NvmeRw::default()
        }
    );
}

#[test]
fn direction_follows_the_lowest_bit_of_the_operation() {
    let mut pdu = Pdu::default();
    let mut rq = request(2);
    rq.cmd_flags = 1;
    match BlkIoOps::queue_rq(&mut pdu, &rq, OP_BITS) {
        QueueStep::MapSegments { io, segments } => {
            assert_eq!(io.dir, DmaDirection::ToDevice);
            assert_eq!(io.rw.opcode, 0x02);
            assert_eq!(io.length, 8192);
            assert_eq!(segments, 2);
        }
        other => panic!("{:?}", other),
    }
    match BlkIoOps::queue_rq(&mut pdu, &rq, 8) {
        QueueStep::MapSegments { io, segments: _ } => {
            assert_eq!(io.dir, DmaDirection::FromDevice);
            assert_eq!(io.rw.opcode, 0x01);
        }
        other => panic!("{:?}", other),
    }
}

#[test]
fn lengths_of_commands() {
    let mut pdu = Pdu::default();
    let mut rq = request(0);
    for (bytes, length) in [(512u32, 0u16), (1023, 0), (4096, 7), (0x200_0000, 0xffff), (0x200_0200, 0)] {
        rq.bytes = bytes;
        assert_eq!(submitted(BlkIoOps::queue_rq(&mut pdu, &rq, OP_BITS)).length, length);
    }
}

#[test]
fn segments_become_pointers() {
    let mut pdu = Pdu::default();
    let io = match BlkIoOps::queue_rq(&mut pdu, &request(2), OP_BITS) {
        QueueStep::MapSegments { io, .. } => io,
        other => panic!("{:?}", other),
    };
    let sg = table(&[(0x1000, 4096), (0x9000, 4096)]);
    let rw = submitted(BlkIoOps::segments_mapped(&mut pdu, &io, 2, &sg));
    assert_eq!((rw.prp1, rw.prp2), (0x1000, 0x9000));
    assert_eq!((rw.opcode, rw.command_id, rw.length), (0x01, 5, 15));
    assert_eq!(pdu.nents, 2);
    assert_eq!(pdu.sg, sg);
}

#[test]
fn long_request_needs_a_list() {
    let mut pdu = Pdu::default();
    let mut rq = request(1);
    rq.payload_bytes = 3 * 4096;
    let io = match BlkIoOps::queue_rq(&mut pdu, &rq, OP_BITS) {
        QueueStep::MapSegments { io, .. } => io,
        other => panic!("{:?}", other),
    };
    let step = BlkIoOps::segments_mapped(&mut pdu, &io, 1, &table(&[(0x4000, 3 * 4096)]));
    match step {
        QueueStep::AllocList { rw, bytes, entries } => {
            assert_eq!(bytes, 128);
            assert_eq!(entries, vec![0x5000, 0x6000]);
            assert_eq!((rw.prp1, rw.prp2), (0x4000, 0));
            let rw = submitted(BlkIoOps::list_allocated(&rw, 0xabc000));
            assert_eq!((rw.prp1, rw.prp2), (0x4000, 0xabc000));
            assert_eq!(rw.command_id, 5);
        }
        other => panic!("{:?}", other),
    }
}

#[test]
fn complete_unmaps_what_was_mapped() {
    let mut pdu = Pdu::default();
    assert_eq!(
        Adapter::<BlkIoOps>::complete(&pdu),
        CompleteStep { unmap: None, status: BLK_STS_OK }
    );
    pdu.nents = 4;
    assert_eq!(
        Adapter::<BlkIoOps>::complete(&pdu),
        CompleteStep {
            unmap: Some(Unmap { nents: 4, dir: DmaDirection::FromDevice }),
            status: BLK_STS_OK,
        }
    );
    assert_eq!(
        Adapter::<BlkAdminOps>::complete(&pdu),
        CompleteStep { unmap: None, status: BLK_STS_OK }
    );
}

#[test]
fn failed_mapping_is_not_unmapped() {
    let mut pdu = Pdu::default();
    let io = match BlkIoOps::queue_rq(&mut pdu, &request(1), OP_BITS) {
        QueueStep::MapSegments { io, .. } => io,
        other => panic!("{:?}", other),
    };
    BlkIoOps::segments_mapped(&mut pdu, &io, 0, &table(&[(0x1000, 8192)]));
    assert!(BlkIoOps::complete(&pdu).unmap.is_none());
}

#[test]
fn completion_is_recorded() {
    let mut pdu = Pdu::default();
    pdu.nents = 2;
    pdu.record(&Completed { tag: 5, result: 77, status: 9 });
    assert_eq!((pdu.result, pdu.status, pdu.nents), (77, 9, 2));
}

#[test]
fn completion_is_delivered_to_its_request() {
    let mut pdu = Pdu::default();
    pdu.nents = 2;
    assert!(deliver(Some(&mut pdu), &Completed { tag: 5, result: 77, status: 9 }));
    assert_eq!((pdu.result, pdu.status, pdu.nents), (77, 9, 2));
}

#[test]
fn completion_without_a_request_completes_nothing() {
    assert!(!deliver(None, &Completed { tag: 5, result: 77, status: 9 }));
}

#[test]
fn carried_command_gets_the_identifier_of_its_request() {
    let mut pdu = Pdu::default();
    let cmd = identify(1, 0, 0x5000);
    submit_sync_command(&mut pdu, &cmd, 33);
    match Adapter::<BlkAdminOps>::queue_rq(&mut pdu, &request(0), OP_BITS) {
        QueueStep::Submit { cmd: sent, bell, status } => {
            assert!(bell);
            assert_eq!(status, 0);
            assert_eq!(sent.as_common(), NvmeCommon { command_id: 33, ..cmd.as_common() });
        }
        other => panic!("{:?}", other),
    }
}

#[test]
fn admin_request_is_allocated_executed_and_freed() {
    let cmd = identify(1, 0, 0x5000);
    let mut sync = SyncCommand::new(cmd);
    assert_eq!(sync.step, SyncStep::AllocRequest);
    let mut pdu = Pdu::default();
    sync.request_allocated(&mut pdu, 0x1_0007);
    assert_eq!(sync.step, SyncStep::Execute);
    assert_eq!(pdu.cmnd.as_common(), NvmeCommon { command_id: 7, ..cmd.as_common() });
    sync.executed();
    assert_eq!(sync.step, SyncStep::Free);
    sync.freed();
    assert_eq!((sync.step, sync.cmd), (SyncStep::Done, cmd));
}
