use rust_nvme::prp::{map_prps, to_signed, PrpPlan, ScatterList, CTRL_PAGE_SIZE, MAX_SG};

fn table(segments: &[(u64, u32)]) -> [ScatterList; MAX_SG] {
    let mut sg = [ScatterList { dma_address: 0, dma_length: 0 }; MAX_SG];
    for (i, (dma_address, dma_length)) in segments.iter().enumerate() {
        sg[i] = ScatterList { dma_address: *dma_address, dma_length: *dma_length };
    }
    sg
}

fn direct(plan: Option<PrpPlan>) -> (u64, u64) {
    match plan {
        Some(PrpPlan::Direct { prp1, prp2 }) => (prp1, prp2),
        other => panic!("{:?}", other),
    }
}

fn list(plan: Option<PrpPlan>) -> (u64, Vec<u64>) {
    match plan {
        Some(PrpPlan::List { prp1, entries }) => (prp1, entries),
        other => panic!("{:?}", other),
    }
}

/// Where the controller looks for byte `k`.
fn locate(plan: &PrpPlan, k: u64) -> u64 {
    let page = CTRL_PAGE_SIZE as u64;
    match plan {
        PrpPlan::Direct { prp1, prp2 } => {
            let span = page - prp1 % page;
            if k < span {
                prp1 + k
            } else {
                prp2 + (k - span)
            }
        }
        PrpPlan::List { prp1, entries } => {
            let span = page - prp1 % page;
            if k < span {
                prp1 + k
            } else {
                entries[((k - span) / page) as usize] + (k - span) % page
            }
        }
    }
}

#[test]
fn signed_words() {
    assert_eq!(to_signed(0), 0);
    assert_eq!(to_signed(0x7fff_ffff), i32::MAX);
    assert_eq!(to_signed(0x8000_0000), i32::MIN);
    assert_eq!(to_signed(0xffff_ffff), -1);
}

#[test]
fn one_page_repeats_the_first_pointer() {
    assert_eq!(direct(map_prps(&table(&[(0x1000, 4096)]), 4096)), (0x1000, 0x1000));
    assert_eq!(direct(map_prps(&table(&[(0x1200, 512)]), 512)), (0x1200, 0x1200));
}

#[test]
fn two_pages_in_one_segment() {
    assert_eq!(direct(map_prps(&table(&[(0x1000, 8192)]), 8192)), (0x1000, 0x2000));
    assert_eq!(direct(map_prps(&table(&[(0x1e00, 4096)]), 4096)), (0x1e00, 0x2000));
}

#[test]
fn two_pages_in_two_segments() {
    let sg = table(&[(0x1000, 4096), (0x9000, 4096)]);
    assert_eq!(direct(map_prps(&sg, 8192)), (0x1000, 0x9000));
}

#[test]
fn more_pages_go_to_a_list() {
    let sg = table(&[(0x1800, 0x1800), (0x9000, 0x2000), (0x20000, 0x800)]);
    let (prp1, entries) = list(map_prps(&sg, 0x4000));
    assert_eq!(prp1, 0x1800);
    assert_eq!(entries, vec![0x2000, 0x9000, 0xa000, 0x20000]);
}

#[test]
fn every_byte_is_where_the_pointers_say() {
    let segments = [(0x1800u64, 0x1800u32), (0x9000, 0x2000), (0x20000, 0x800)];
    let plan = map_prps(&table(&segments), 0x4000).unwrap();
    let mut k: u64 = 0;
    for (addr, len) in segments.iter() {
        for i in 0..*len as u64 {
            assert_eq!(locate(&plan, k), addr + i);
            k += 1;
        }
    }
    assert_eq!(k, 0x4000);
}

#[test]
fn further_pointers_are_page_addresses() {
    let sg = table(&[(0x1800, 0x1800), (0x9000, 0x2000), (0x20000, 0x800)]);
    let (_, entries) = list(map_prps(&sg, 0x4000));
    assert!(entries.iter().all(|e| e % 4096 == 0));
}

#[test]
fn list_is_full_at_seventeen_pages() {
    let (_, entries) = list(map_prps(&table(&[(0, 17 * 4096)]), 17 * 4096));
    assert_eq!(entries.len(), 16);
    assert_eq!(entries[15], 16 * 4096);
}

#[test]
fn list_is_cut_off_beyond_that() {
    let (_, entries) = list(map_prps(&table(&[(0, 40 * 4096)]), 40 * 4096));
    assert_eq!(entries.len(), 16);
    assert_eq!(entries[0], 4096);
    assert_eq!(entries[15], 16 * 4096);
}

#[test]
fn sixteen_single_pages() {
    let segments: Vec<(u64, u32)> = (0..16).map(|i| (0x10000 * (i + 1), 4096)).collect();
    let (prp1, entries) = list(map_prps(&table(&segments), 16 * 4096));
    assert_eq!(prp1, 0x10000);
    assert_eq!(entries.len(), 15);
    assert_eq!(entries[14], 0x100000);
}

#[test]
fn walk_off_the_table_is_found() {
    let segments: Vec<(u64, u32)> = (0..16).map(|i| (0x10000 * (i + 1), 4096)).collect();
    assert!(map_prps(&table(&segments), 17 * 4096).is_none());
}

#[test]
fn walk_off_the_numbers_is_found() {
    assert!(map_prps(&table(&[]), i32::MIN).is_none());
    let top = u64::MAX - 4095;
    assert!(map_prps(&table(&[(0, 4096), (top, 8192)]), 3 * 4096).is_none());
    assert!(map_prps(&table(&[(0, 0x8000_0000)]), 8192).is_none());
}

#[test]
fn request_without_bytes() {
    assert_eq!(direct(map_prps(&table(&[(0x3000, 512)]), 0)), (0x3000, 0x3000));
    assert_eq!(direct(map_prps(&table(&[(0x3000, 512)]), -5)), (0x3000, 0x3000));
}
