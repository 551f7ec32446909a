use rust_nvme::admin::{
    alloc_completion_queue, alloc_submission_queue, config_admin_queue, get_features, identify,
    set_features, set_queue_count, start_admin_queue, wait_idle, wait_ready,
};
use rust_nvme::defs::{BarOp, NvmeAdminOpcode, NvmeCommand, NvmeCommon, NvmeOpcode, NvmeRw};
use rust_nvme::queue::{NvmeQueue, QueueParams, QueuePlace};

fn queue(polled: bool) -> NvmeQueue {
    NvmeQueue::new(
        &QueueParams { qid: 1, q_depth: 1024, cq_vector: 3, polled, doorbell: 4 },
        &QueuePlace { sq_dma_handle: 0x1000, cq_dma_handle: 0x2000, db_offset: 0x1008 },
    )
}

#[test]
fn waits_look_at_the_ready_bit() {
    assert!(wait_ready(1));
    assert!(wait_ready(0xffff_ffff));
    assert!(!wait_ready(2));
    assert!(wait_idle(0));
    assert!(wait_idle(6));
    assert!(!wait_idle(3));
}

#[test]
fn opcodes() {
    assert_eq!(NvmeAdminOpcode::CreateSq.code(), 1);
    assert_eq!(NvmeAdminOpcode::CreateCq.code(), 5);
    assert_eq!(NvmeAdminOpcode::Identify.code(), 6);
    assert_eq!(NvmeAdminOpcode::SetFeatures.code(), 9);
    assert_eq!(NvmeAdminOpcode::GetFeatures.code(), 10);
    assert_eq!(NvmeOpcode::Write.code(), 1);
    assert_eq!(NvmeOpcode::Read.code(), 2);
}

#[test]
fn admin_queue_setup() {
    let expected = vec![
        BarOp::Writel { word: 0, offset: 0x14 },
        BarOp::PollIdle,
        BarOp::Writel { word: 0x03ff_03ff, offset: 0x24 },
        BarOp::Writeq { quad: 0x1000, offset: 0x28 },
        BarOp::Writeq { quad: 0x2000, offset: 0x30 },
        BarOp::Writel { word: 0x0046_0001, offset: 0x14 },
    ];
    assert_eq!(start_admin_queue(1024, &queue(false)), expected);
    let mut waiting = expected;
    waiting.push(BarOp::PollReady);
    assert_eq!(config_admin_queue(1024, &queue(false)), waiting);
}

#[test]
fn smallest_admin_queue() {
    assert_eq!(
        start_admin_queue(1, &queue(false))[2],
        BarOp::Writel { word: 0, offset: 0x24 }
    );
}

#[test]
fn completion_queue_command() {
    assert_eq!(
        alloc_completion_queue(&queue(false)).as_common(),
        NvmeCommon {
            opcode: 5,
            prp1: 0x2000,
            cdw10: 0x03ff_0001,
            cdw11: 0x0003_0003,
            ..NvmeCommon::default()
        }
    );
    assert_eq!(alloc_completion_queue(&queue(true)).as_common().cdw11, 0x0003_0001);
}

#[test]
fn submission_queue_command() {
    assert_eq!(
        alloc_submission_queue(&queue(false)).as_common(),
        NvmeCommon {
            opcode: 1,
            prp1: 0x1000,
            cdw10: 0x03ff_0001,
            cdw11: 0x0001_0005,
            ..NvmeCommon::default()
        }
    );
}

#[test]
fn feature_commands() {
    assert_eq!(
        set_queue_count(1).as_common(),
        NvmeCommon { opcode: 9, cdw10: 7, cdw11: 1, ..NvmeCommon::default() }
    );
    assert_eq!(
        set_features(2, 5, 0xdead).as_common(),
        NvmeCommon { opcode: 9, cdw10: 2, cdw11: 5, ..NvmeCommon::default() }
    );
    assert_eq!(
        get_features(3, 1, 0x7000).as_common(),
        NvmeCommon { opcode: 10, nsid: 1, prp1: 0x7000, cdw10: 3, ..NvmeCommon::default() }
    );
}

#[test]
fn identify_command() {
    assert_eq!(
        identify(0, 1, 0x6000).as_common(),
        NvmeCommon { opcode: 6, prp1: 0x6000, cdw10: 1, ..NvmeCommon::default() }
    );
}

#[test]
fn read_write_layout() {
    let rw = NvmeRw {
        opcode: 2,
        flags: 3,
        command_id: 4,
        nsid: 5,
        metadata: 6,
        prp1: 7,
        prp2: 8,
        slba: 0x0000_000a_0000_0009,
        length: 11,
        control: 12,
        dsmgmt: 13,
        reftag: 14,
        apptag: 15,
        appmask: 16,
    };
    assert_eq!(
        NvmeCommand::Rw(rw).as_common(),
        NvmeCommon {
            opcode: 2,
            flags: 3,
            command_id: 4,
            nsid: 5,
            cdw2: 0,
            cdw3: 0,
            metadata: 6,
            prp1: 7,
            prp2: 8,
            cdw10: 9,
            cdw11: 10,
            cdw12: 0x000c_000b,
            cdw13: 13,
            cdw14: 14,
            cdw15: 0x0010_000f,
        }
    );
}
