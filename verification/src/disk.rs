//! The disk that a namespace becomes.
use vstd::prelude::*;
use vstd::arithmetic::power2::{lemma_pow2_adds, pow2};
use vstd::bits::lemma_u64_shl_is_mul;

use crate::defs::{NvmeIdNs, NvmeLbaf, NvmeNamespace, LBAF_COUNT};
use crate::prp::MAX_SG;
use crate::wire::{law_namespace_is_read_from_memory, le64};

verus! {

/// How many minor numbers a disk gets.
pub const DISK_MINORS: i32 = 64;

/// The block size that is noted for a namespace, as a power of two.
pub const NS_LBA_SHIFT: u32 = 9;

/// The length of the name of the disk.
pub const DISK_NAME_LEN: usize = 7;

/// The settings of a disk.
#[derive(Clone, Copy, PartialEq, Eq, Debug)]
pub struct Disk {
    pub ns: NvmeNamespace,
    /// The most segments of a request.
    pub max_segments: u16,
    pub major: i32,
    pub minors: i32,
    pub name: [i8; DISK_NAME_LEN],
    /// In sectors of the block layer.
    pub capacity: u64,
}

/// The name of the disk: `nvme0n1`.
pub open spec fn disk_name() -> [i8; DISK_NAME_LEN] {
    [110i8, 118i8, 109i8, 101i8, 48i8, 110i8, 49i8]
}

/// The format that is in use in a namespace.
pub open spec fn format_in_use(ns: NvmeIdNs) -> NvmeLbaf {
    ns.lbaf@[ns.flbas as int % LBAF_COUNT as int]
}

/// The blocks of the namespace are no smaller than the sectors of the block layer, and not beyond
/// what a size can be shifted by.
pub open spec fn has_usable_format(ns: NvmeIdNs, sector_shift: u32) -> bool {
    sector_shift <= format_in_use(ns).ds < sector_shift + 64
}

/// The size of the namespace in sectors of the block layer. Bits that leave the number at its
/// upper end are lost.
pub open spec fn capacity(ns: NvmeIdNs, sector_shift: u32) -> u64 {
    ns.nsze << ((format_in_use(ns).ds - sector_shift) as u64)
}

/// The disk that the namespace `nsid` becomes; none, if the namespace has no capacity.
pub open spec fn disk_for(ns: NvmeIdNs, nsid: u32, major: i32, sector_shift: u32) -> Option<Disk> {
    if ns.ncap == 0 {
        None
    } else {
        Some(
            Disk {
                ns: NvmeNamespace { id: nsid, lba_shift: NS_LBA_SHIFT },
                max_segments: MAX_SG as u16,
                major,
                minors: DISK_MINORS,
                name: disk_name(),
                capacity: capacity(ns, sector_shift),
            },
        )
    }
}

/// Works out the disk that the namespace `nsid` becomes.
pub fn plan_disk(ns: &NvmeIdNs, nsid: u32, major: i32, sector_shift: u32) -> (disk: Option<Disk>)
    requires
        ns.ncap != 0 ==> has_usable_format(*ns, sector_shift),
    ensures
        disk == disk_for(*ns, nsid, major, sector_shift),
{
    if ns.ncap == 0 {
        return None;
    }
    let flbas: u8 = ns.flbas;
    assert(flbas & 0xf == flbas % 16) by (bit_vector);
    let lbaf: usize = (flbas & 0xf) as usize;
    let lba_shift: u32 = ns.lbaf[lbaf].ds as u32;
    let shift: u64 = (lba_shift - sector_shift) as u64;
    Some(
        Disk {
            ns: NvmeNamespace { id: nsid, lba_shift: NS_LBA_SHIFT },
            max_segments: MAX_SG as u16,
            major,
            minors: DISK_MINORS,
            name: [110, 118, 109, 101, 48, 110, 49],
            capacity: ns.nsze << shift,
        },
    )
}

/// Whether [`plan_disk`] can be asked about a namespace.
pub fn format_is_usable(ns: &NvmeIdNs, sector_shift: u32) -> (yes: bool)
    ensures
        yes == (ns.ncap != 0 ==> has_usable_format(*ns, sector_shift)),
{
    let flbas: u8 = ns.flbas;
    let lbaf: usize = (flbas % 16) as usize;
    let ds: u64 = ns.lbaf[lbaf].ds as u64;
    let sector: u64 = sector_shift as u64;
    ns.ncap == 0 || (sector <= ds && ds < sector + 64)
}

/// Writes the name of a disk to the start of a field for it.
pub fn name_disk<const N: usize>(disk: &Disk, field: &mut [i8; N])
    requires
        N >= DISK_NAME_LEN,
    ensures
        forall|i: int| 0 <= i < DISK_NAME_LEN ==> #[trigger] final(field)@[i] == disk.name@[i],
        forall|i: int| DISK_NAME_LEN <= i < N ==> #[trigger] final(field)@[i] == old(field)@[i],
        final(field)@ == disk.name@ + old(field)@.skip(DISK_NAME_LEN as int),
{
    let mut i: usize = 0;
    while i < DISK_NAME_LEN
        invariant
            i <= DISK_NAME_LEN,
            N >= DISK_NAME_LEN,
            forall|j: int| 0 <= j < i ==> #[trigger] field@[j] == disk.name@[j],
            forall|j: int| DISK_NAME_LEN <= j < N ==> #[trigger] field@[j] == old(field)@[j],
        decreases DISK_NAME_LEN - i,
    {
        field[i] = disk.name[i];
        i = i + 1;
    }
    assert(field@ =~= disk.name@ + old(field)@.skip(DISK_NAME_LEN as int));
}

/// Unless it is too large to be counted in sectors, a disk has as many bytes as its namespace:
/// its blocks by their size are its sectors by theirs.
pub proof fn law_disk_is_as_large_as_its_namespace(
    ns: NvmeIdNs,
    nsid: u32,
    major: i32,
    sector_shift: u32,
    disk: Disk,
)
    requires
        disk_for(ns, nsid, major, sector_shift) == Some(disk),
        has_usable_format(ns, sector_shift),
        ns.nsze * pow2((format_in_use(ns).ds - sector_shift) as nat) <= u64::MAX,
    ensures
        disk.capacity * pow2(sector_shift as nat) == ns.nsze * pow2(format_in_use(ns).ds as nat),
{
    let shift = (format_in_use(ns).ds - sector_shift) as u64;
    lemma_u64_shl_is_mul(ns.nsze, shift);
    lemma_pow2_adds(shift as nat, sector_shift as nat);
    let a = ns.nsze as int;
    let b = pow2(shift as nat) as int;
    let c = pow2(sector_shift as nat) as int;
    assert((a * b) * c == a * (b * c)) by (nonlinear_arith);
}

/// A namespace becomes a disk exactly if it has capacity. The blocks of the namespace by their
/// size, which is that of the format whose number is in the lower four bits of `flbas`, are the
/// sectors of the disk by theirs, unless there are more sectors than can be counted.
pub proof fn law_disk_has_the_size_of_the_format_in_use(
    ns: &NvmeIdNs,
    nsid: u32,
    major: i32,
    sector_shift: u32,
    disk: Option<Disk>,
)
    requires
        ns.ncap != 0 ==> sector_shift <= ns.lbaf@[(ns.flbas & 0xf) as int].ds < sector_shift + 64,
        call_ensures(plan_disk, (ns, nsid, major, sector_shift), disk),
    ensures
        call_requires(plan_disk, (ns, nsid, major, sector_shift)),
        disk is Some <==> ns.ncap != 0,
        ({
            let ds = ns.lbaf@[(ns.flbas & 0xf) as int].ds;
            ns.ncap != 0 && ns.nsze * pow2((ds - sector_shift) as nat) <= u64::MAX
                ==> disk->0.capacity * pow2(sector_shift as nat) == ns.nsze * pow2(ds as nat)
        }),
{
    let flbas = ns.flbas;
    assert(flbas & 0xf == flbas % 16) by (bit_vector);
    if ns.ncap != 0 && ns.nsze * pow2((format_in_use(*ns).ds - sector_shift) as nat) <= u64::MAX {
        law_disk_is_as_large_as_its_namespace(*ns, nsid, major, sector_shift, disk->0);
    }
}

/// Of the sectors of a disk, those bits are kept that the number has room for: the capacity moved
/// back by as many bits as a block is larger than a sector is the size of the namespace but for
/// its highest bits, and what was moved in is zero.
pub proof fn law_capacity_loses_only_high_bits(
    ns: &NvmeIdNs,
    nsid: u32,
    major: i32,
    sector_shift: u32,
    disk: Option<Disk>,
    moved: u64,
)
    requires
        ns.ncap != 0,
        moved < 64,
        ns.lbaf@[(ns.flbas & 0xf) as int].ds == sector_shift + moved,
        call_ensures(plan_disk, (ns, nsid, major, sector_shift), disk),
    ensures
        disk matches Some(d) && d.capacity >> moved == ns.nsze & (u64::MAX >> moved) && (d.capacity
            >> moved) << moved == d.capacity,
{
    let flbas = ns.flbas;
    assert(flbas & 0xf == flbas % 16) by (bit_vector);
    let size = ns.nsze;
    assert((size << moved) >> moved == size & (0xffff_ffff_ffff_ffffu64 >> moved) && ((size
        << moved) >> moved) << moved == size << moved) by (bit_vector)
        requires
            moved < 64,
    ;
}

/// The disk of a namespace: up to sixteen segments in a request, the major number that was given,
/// sixty-four minor numbers, the name `nvme0n1`, and the namespace with its identifier, noted with
/// blocks of 512 bytes.
pub proof fn law_disk_has_its_settings(
    ns: &NvmeIdNs,
    nsid: u32,
    major: i32,
    sector_shift: u32,
    disk: Option<Disk>,
)
    requires
        call_ensures(plan_disk, (ns, nsid, major, sector_shift), disk),
    ensures
        disk matches Some(d) ==> {
            &&& d.ns.id == nsid
            &&& d.ns.lba_shift == 9
            &&& d.max_segments == 16
            &&& d.major == major
            &&& d.minors == 64
            &&& d.name@ =~= seq![110i8, 118i8, 109i8, 101i8, 48i8, 110i8, 49i8]
        },
{
}

/// A namespace can be asked about exactly if it has no capacity, or if the blocks of the format in
/// use are no smaller than a sector and less than 2 to the 64th times as large.
pub proof fn law_usable_formats_are_those_in_range(ns: &NvmeIdNs, sector_shift: u32, yes: bool)
    requires
        call_ensures(format_is_usable, (ns, sector_shift), yes),
    ensures
        ({
            let ds = ns.lbaf@[(ns.flbas & 0xf) as int].ds;
            yes <==> ns.ncap == 0 || 0 <= ds - sector_shift <= 63
        }),
{
    let flbas = ns.flbas;
    assert(flbas & 0xf == flbas % 16) by (bit_vector);
}

/// The name of a disk is at the start of its field, and the rest of the field stays as it was.
pub proof fn law_name_is_at_the_start_of_its_field<const N: usize>(
    disk: &Disk,
    field: &mut [i8; N],
)
    requires
        N >= 7,
        call_ensures(name_disk::<N>, (disk, field), ()),
    ensures
        call_requires(name_disk::<N>, (disk, field)),
        final(field)@.take(7) =~= disk.name@,
        final(field)@.skip(7) =~= old(field)@.skip(7),
{
}

/// From the identify data in memory to the disk: with capacity, the disk has as many bytes as the
/// device says, by the size in the first eight bytes and by the format that byte 26 tells in its
/// lower four bits.
pub proof fn law_disk_has_the_size_in_the_identify_data(
    b: &[u8],
    ns: NvmeIdNs,
    nsid: u32,
    major: i32,
    sector_shift: u32,
    disk: Option<Disk>,
)
    requires
        b@.len() >= 192,
        call_ensures(NvmeIdNs::from_bytes, (b,), ns),
        call_ensures(plan_disk, (&ns, nsid, major, sector_shift), disk),
        sector_shift <= b@[130 + 4 * (b@[26] as int % 16)] < sector_shift + 64,
        le64(b@, 0) * pow2((b@[130 + 4 * (b@[26] as int % 16)] - sector_shift) as nat) <= u64::MAX,
    ensures
        disk is Some <==> le64(b@, 8) != 0,
        disk matches Some(d) ==> d.capacity * pow2(sector_shift as nat) == le64(b@, 0) * pow2(
            b@[130 + 4 * (b@[26] as int % 16)] as nat,
        ),
{
    law_namespace_is_read_from_memory(b, ns);
    let flbas = ns.flbas;
    assert(flbas & 0xf == flbas % 16) by (bit_vector);
    assert(ns.lbaf@[(flbas & 0xf) as int].ds == b@[130 + 4 * (b@[26] as int % 16)]);
    law_disk_has_the_size_of_the_format_in_use(&ns, nsid, major, sector_shift, disk);
}

} // verus!
