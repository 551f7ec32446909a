use rust_nvme::defs::{NvmeCommand, NvmeCommon, NvmeCompletion};
use rust_nvme::defs::NvmeIdNs;

fn word(b: &[u8], at: usize) -> u32 {
    u32::from_le_bytes([b[at], b[at + 1], b[at + 2], b[at + 3]])
}

fn quad(b: &[u8], at: usize) -> u64 {
    word(b, at) as u64 | (word(b, at + 4) as u64) << 32
}

#[test]
fn command_in_memory() {
    let c = NvmeCommon {
        opcode: 0x11,
        flags: 0x22,
        command_id: 0x4433,
        nsid: 0x8877_6655,
        cdw2: 0x0102_0304,
        cdw3: 0x0506_0708,
        metadata: 0x1112_1314_1516_1718,
        prp1: 0x2122_2324_2526_2728,
        prp2: 0xf1f2_f3f4_f5f6_f7f8,
        cdw10: 10,
        cdw11: 0xffff_ffff,
        cdw12: 12,
        cdw13: 13,
        cdw14: 14,
        cdw15: 0x8000_0000,
    };
    let b = NvmeCommand::Common(c).to_bytes();
    assert_eq!(b.len(), 64);
    assert_eq!(&b[0..8], &[0x11, 0x22, 0x33, 0x44, 0x55, 0x66, 0x77, 0x88]);
    let back = NvmeCommon {
        opcode: b[0],
        flags: b[1],
        command_id: u16::from_le_bytes([b[2], b[3]]),
        nsid: word(&b, 4),
        cdw2: word(&b, 8),
        cdw3: word(&b, 12),
        metadata: quad(&b, 16),
        prp1: quad(&b, 24),
        prp2: quad(&b, 32),
        cdw10: word(&b, 40),
        cdw11: word(&b, 44),
        cdw12: word(&b, 48),
        cdw13: word(&b, 52),
        cdw14: word(&b, 56),
        cdw15: word(&b, 60),
    };
    assert_eq!(back, c);
}

#[test]
fn completion_in_memory() {
    let b: Vec<u8> = (0x10..0x20).collect();
    assert_eq!(
        NvmeCompletion::from_bytes(&b),
        NvmeCompletion {
            result: 0x1312_1110,
            sq_head: 0x1918,
            sq_id: 0x1b1a,
            command_id: 0x1d1c,
            status: 0x1f1e,
        }
    );
}

#[test]
fn namespace_in_memory() {
    let mut b = vec![0u8; 4096];
    b[0] = 0xff;
    b[7] = 0x01;
    b[8] = 0x02;
    b[15] = 0x80;
    b[26] = 0x13;
    b[128 + 12] = 0x08;
    b[128 + 13] = 0x01;
    b[128 + 14] = 12;
    b[128 + 15] = 2;
    b[128 + 63] = 1;
    let ns = NvmeIdNs::from_bytes(&b);
    assert_eq!(ns.nsze, 0x0100_0000_0000_00ff);
    assert_eq!(ns.ncap, 0x8000_0000_0000_0002);
    assert_eq!(ns.flbas, 0x13);
    assert_eq!((ns.lbaf[3].ms, ns.lbaf[3].ds, ns.lbaf[3].rp), (0x0108, 12, 2));
    assert_eq!((ns.lbaf[0].ms, ns.lbaf[0].ds, ns.lbaf[0].rp), (0, 0, 0));
    assert_eq!(ns.lbaf[15].rp, 1);
}
