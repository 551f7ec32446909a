//! Physical region pages: how the data of a request is described to the controller.
//!
//! A command carries two data pointers. The first is the address of the first byte. The second is
//! the address of the second page, or of a list that holds the addresses of all further pages.
use vstd::prelude::*;

verus! {

/// The most segments that a request has, and the most entries that a page list holds.
pub const MAX_SG: usize = 16;

/// The page size of the controller, in bytes.
pub const CTRL_PAGE_SIZE: i32 = 4096;

/// One segment of a request after it was mapped for the device.
#[derive(Clone, Copy, PartialEq, Eq, Structural, Debug)]
pub struct ScatterList {
    pub dma_address: u64,
    pub dma_length: u32,
}

/// The data pointers of a command.
#[derive(Debug)]
pub enum PrpPlan {
    /// Both pointers are known: the second one is `prp2`.
    Direct { prp1: u64, prp2: u64 },
    /// The second pointer is to be the address of a list that holds `entries`.
    List { prp1: u64, entries: Vec<u64> },
}

/// A page that the walk over the segments comes to: its address, and how many bytes its segment
/// has left from there on.
pub struct PageStop {
    pub addr: int,
    pub left: int,
}

/// The value of a 32-bit word read as a two's complement number.
pub open spec fn signed(x: u32) -> int {
    if x < 0x8000_0000 {
        x as int
    } else {
        x - 0x1_0000_0000
    }
}

/// Reads a 32-bit word as a two's complement number.
pub fn to_signed(x: u32) -> (v: i32)
    ensures
        v == signed(x),
{
    let v: i32 = x as i32;
    assert(x < 0x8000_0000 ==> x as i32 == x) by (bit_vector);
    assert(x >= 0x8000_0000 ==> x as i32 == x - 0x1_0000_0000) by (bit_vector);
    v
}

/// How many pages `len` bytes take from a page boundary on. The walk stops at least once in
/// every segment that it enters.
pub open spec fn pages_in(len: int) -> int {
    if len <= 0 {
        1
    } else {
        (len + CTRL_PAGE_SIZE - 1) / CTRL_PAGE_SIZE as int
    }
}

/// The stops in `left` bytes from `addr` on.
pub open spec fn stops_in(addr: int, left: int) -> Seq<PageStop> {
    Seq::new(
        pages_in(left) as nat,
        |j: int|
            PageStop { addr: addr + j * CTRL_PAGE_SIZE, left: left - j * CTRL_PAGE_SIZE },
    )
}

/// The stops in the segments from `idx` on.
pub open spec fn stops_from(sg: Seq<ScatterList>, idx: int) -> Seq<PageStop>
    decreases sg.len() - idx,
{
    if idx < 0 || idx >= sg.len() {
        Seq::empty()
    } else {
        stops_in(sg[idx].dma_address as int, signed(sg[idx].dma_length)) + stops_from(sg, idx + 1)
    }
}

/// How many bytes there are from the start of the first segment to the end of its page.
pub open spec fn first_span(sg: Seq<ScatterList>) -> int {
    CTRL_PAGE_SIZE - sg[0].dma_address as int % CTRL_PAGE_SIZE as int
}

/// The stops after the first page of the request.
pub open spec fn following(sg: Seq<ScatterList>) -> Seq<PageStop> {
    let span = first_span(sg);
    let left = signed(sg[0].dma_length) - span;
    if left > 0 {
        stops_in(sg[0].dma_address + span, left) + stops_from(sg, 1)
    } else {
        stops_from(sg, 1)
    }
}

/// Of the pages after the first one, how many get an entry in the list.
pub open spec fn listed(rest: int) -> int {
    if pages_in(rest) <= MAX_SG {
        pages_in(rest)
    } else {
        MAX_SG as int
    }
}

/// The walk can leave this stop: neither the address behind it nor the count of what is left
/// there is out of range.
pub open spec fn passable(s: PageStop) -> bool {
    s.addr + CTRL_PAGE_SIZE <= u64::MAX && s.left - CTRL_PAGE_SIZE >= i32::MIN
}

/// The walk over the segments of a request of `length` bytes stays inside the table, and its
/// arithmetic stays in range.
pub open spec fn walkable(sg: Seq<ScatterList>, length: int) -> bool {
    let span = first_span(sg);
    let rest = length - span;
    let left = signed(sg[0].dma_length) - span;
    &&& rest >= i32::MIN
    &&& rest > 0 ==> {
        &&& left >= i32::MIN
        &&& left > 0 ==> sg[0].dma_address + span <= u64::MAX
    }
    &&& rest > CTRL_PAGE_SIZE ==> {
        &&& following(sg).len() >= listed(rest)
        &&& pages_in(rest) > MAX_SG ==> following(sg).len() > MAX_SG
        &&& forall|j: int| 0 <= j < listed(rest) ==> passable(#[trigger] following(sg)[j])
    }
}

impl PrpPlan {
    /// The plan for a request of `length` bytes in the segments `sg`.
    ///
    /// The first pointer is where the data starts. If the data ends in that page, the second
    /// pointer repeats it; if it ends in the page after, the second pointer is that page. Else
    /// there is a list of the pages that follow, which is cut off when it is full.
    pub open spec fn describes(self, sg: Seq<ScatterList>, length: int) -> bool {
        let rest = length - first_span(sg);
        match self {
            PrpPlan::Direct { prp1, prp2 } => {
                &&& rest <= CTRL_PAGE_SIZE
                &&& prp1 == sg[0].dma_address
                &&& prp2 == if rest <= 0 {
                    sg[0].dma_address as int
                } else {
                    following(sg)[0].addr
                }
            },
            PrpPlan::List { prp1, entries } => {
                &&& rest > CTRL_PAGE_SIZE
                &&& prp1 == sg[0].dma_address
                &&& entries@.len() == listed(rest)
                &&& forall|j: int|
                    0 <= j < listed(rest) ==> #[trigger] entries@[j] == following(sg)[j].addr
            },
        }
    }
}

/// A stop with more than a page left in its segment is followed by the next page of it; one with
/// less is the last of its segment.
proof fn lemma_stops_in_step(addr: int, left: int)
    ensures
        stops_in(addr, left).len() >= 1,
        stops_in(addr, left)[0] == (PageStop { addr, left }),
        left > CTRL_PAGE_SIZE ==> stops_in(addr, left).skip(1) =~= stops_in(
            addr + CTRL_PAGE_SIZE,
            left - CTRL_PAGE_SIZE,
        ),
        left <= CTRL_PAGE_SIZE ==> stops_in(addr, left).len() == 1,
{
    if left > CTRL_PAGE_SIZE {
        let a = stops_in(addr, left).skip(1);
        let b = stops_in(addr + CTRL_PAGE_SIZE, left - CTRL_PAGE_SIZE);
        assert(pages_in(left) == pages_in(left - CTRL_PAGE_SIZE) + 1);
        assert(a.len() == b.len());
        assert forall|j: int| 0 <= j < a.len() implies a[j] == b[j] by {
            assert((j + 1) * CTRL_PAGE_SIZE == j * CTRL_PAGE_SIZE + CTRL_PAGE_SIZE)
                by (nonlinear_arith)
                requires
                    CTRL_PAGE_SIZE == 4096,
            ;
        }
        assert(a =~= b);
    }
}

/// Works out the data pointers for a request of `length` bytes in the segments `sg`.
///
/// `None` says that the walk over the segments would leave the table or the range of its numbers.
pub fn map_prps(sg: &[ScatterList; MAX_SG], length: i32) -> (plan: Option<PrpPlan>)
    ensures
        plan is Some <==> walkable(sg@, length as int),
        plan matches Some(p) ==> p.describes(sg@, length as int),
{
    let page: i64 = CTRL_PAGE_SIZE as i64;
    let low: i64 = i32::MIN as i64;
    let prp1: u64 = sg[0].dma_address;
    let span: i64 = page - (prp1 % CTRL_PAGE_SIZE as u64) as i64;
    let rest: i64 = length as i64 - span;
    if rest < low {
        return None;
    }
    if rest <= 0 {
        return Some(PrpPlan::Direct { prp1, prp2: prp1 });
    }
    let mut idx: usize = 0;
    let mut addr: u64 = prp1;
    let mut left: i64 = to_signed(sg[0].dma_length) as i64 - span;
    if left < low {
        return None;
    }
    let ghost stops = following(sg@);
    if left > 0 {
        if prp1 > u64::MAX - span as u64 {
            return None;
        }
        addr = prp1 + span as u64;
    } else {
        idx = 1;
        addr = sg[1].dma_address;
        left = to_signed(sg[1].dma_length) as i64;
    }
    assert(stops =~= stops_in(addr as int, left as int) + stops_from(sg@, idx + 1));
    proof {
        lemma_stops_in_step(addr as int, left as int);
        assert(stops[0].addr == addr);
    }
    if rest <= page {
        return Some(PrpPlan::Direct { prp1, prp2: addr });
    }
    let mut entries: Vec<u64> = Vec::new();
    let mut remaining: i64 = rest;
    let mut i: usize = 0;
    assert(stops.skip(0) =~= stops);
    while i < MAX_SG
        invariant
            i <= MAX_SG,
            page == CTRL_PAGE_SIZE,
            low == i32::MIN,
            stops == following(sg@),
            rest == length - first_span(sg@),
            CTRL_PAGE_SIZE < rest <= i32::MAX,
            prp1 == sg@[0].dma_address,
            0 < remaining == rest - i * CTRL_PAGE_SIZE,
            low <= left <= i32::MAX,
            idx < MAX_SG,
            i < stops.len(),
            stops.skip(i as int) == stops_in(addr as int, left as int) + stops_from(sg@, idx + 1),
            entries@.len() == i,
            forall|j: int| 0 <= j < i ==> #[trigger] entries@[j] == stops[j].addr,
            forall|j: int| 0 <= j < i ==> passable(#[trigger] stops[j]),
            walkable(sg@, length as int) <==> {
                &&& stops.len() >= listed(rest as int)
                &&& pages_in(rest as int) > MAX_SG ==> stops.len() > MAX_SG
                &&& forall|j: int|
                    0 <= j < listed(rest as int) ==> passable(#[trigger] stops[j])
            },
        decreases MAX_SG - i,
    {
        proof {
            lemma_stops_in_step(addr as int, left as int);
            assert(stops.skip(i as int)[0] == stops[i as int]);
            assert(stops[i as int] == (PageStop { addr: addr as int, left: left as int }));
            assert(i < listed(rest as int));
        }
        if left - page < low || addr > u64::MAX - page as u64 {
            assert(!passable(stops[i as int]));
            return None;
        }
        entries.push(addr);
        let ghost before = stops.skip(i as int);
        assert(before.skip(1) =~= stops.skip(i + 1));
        left = left - page;
        addr = addr + page as u64;
        remaining = remaining - page;
        if remaining <= 0 {
            assert(listed(rest as int) == i + 1);
            return Some(PrpPlan::List { prp1, entries });
        }
        if left > 0 {
            proof {
                assert(before.skip(1) =~= stops_in(addr as int, left as int) + stops_from(
                    sg@,
                    idx + 1,
                ));
                lemma_stops_in_step(addr as int, left as int);
                assert(stops.skip(i + 1).len() > 0);
            }
        } else {
            assert(before.skip(1) =~= stops_from(sg@, idx + 1));
            if idx + 1 == MAX_SG {
                assert(stops.skip(i + 1).len() == 0);
                return None;
            }
            idx = idx + 1;
            addr = sg[idx].dma_address;
            left = to_signed(sg[idx].dma_length) as i64;
            proof {
                lemma_stops_in_step(addr as int, left as int);
                assert(stops.skip(i + 1).len() > 0);
            }
        }
        i = i + 1;
    }
    assert(pages_in(rest as int) > MAX_SG);
    Some(PrpPlan::List { prp1, entries })
}

/// The bytes in the segments from `idx` up to `count`.
pub open spec fn total(sg: Seq<ScatterList>, idx: int, count: int) -> int
    decreases count - idx,
{
    if idx >= count {
        0
    } else {
        sg[idx].dma_length + total(sg, idx + 1, count)
    }
}

/// Where byte `k` of the data is, counted from the start of segment `idx`.
pub open spec fn byte_addr(sg: Seq<ScatterList>, idx: int, k: int) -> int
    decreases sg.len() - idx,
{
    if idx < 0 || idx >= sg.len() || k < sg[idx].dma_length {
        sg[idx].dma_address + k
    } else {
        byte_addr(sg, idx + 1, k - sg[idx].dma_length)
    }
}

/// The first `count` segments hold data without a gap inside a page: none is empty, each but the
/// first starts on a page boundary and each but the last ends on one.
pub open spec fn gapless(sg: Seq<ScatterList>, count: int) -> bool {
    &&& 1 <= count <= sg.len()
    &&& forall|i: int|
        0 <= i < count ==> {
            &&& 0 < (#[trigger] sg[i]).dma_length < 0x8000_0000
            &&& i > 0 ==> sg[i].dma_address as int % CTRL_PAGE_SIZE as int == 0
            &&& i + 1 < count ==> (sg[i].dma_address + sg[i].dma_length) % CTRL_PAGE_SIZE as int
                == 0
        }
}

impl PrpPlan {
    /// Where the controller looks for byte `k` of the data.
    pub open spec fn locates(self, k: int) -> int {
        match self {
            PrpPlan::Direct { prp1, prp2 } => {
                let span = CTRL_PAGE_SIZE - prp1 as int % CTRL_PAGE_SIZE as int;
                if k < span {
                    prp1 + k
                } else {
                    prp2 + (k - span)
                }
            },
            PrpPlan::List { prp1, entries } => {
                let span = CTRL_PAGE_SIZE - prp1 as int % CTRL_PAGE_SIZE as int;
                if k < span {
                    prp1 + k
                } else {
                    entries@[(k - span) / CTRL_PAGE_SIZE as int] + (k - span)
                        % CTRL_PAGE_SIZE as int
                }
            },
        }
    }
}

/// Byte `k` of `left` bytes lies in the stop whose number is `k` in pages.
proof fn lemma_stops_in_reach(addr: int, left: int, k: int)
    requires
        0 <= k < left,
    ensures
        0 <= k / CTRL_PAGE_SIZE as int,
        k / (CTRL_PAGE_SIZE as int) < stops_in(addr, left).len(),
        ({
            let s = stops_in(addr, left)[k / CTRL_PAGE_SIZE as int];
            &&& s.addr + k % CTRL_PAGE_SIZE as int == addr + k
            &&& s.left > 0
            &&& addr <= s.addr < addr + left
            &&& addr % CTRL_PAGE_SIZE as int == 0 ==> s.addr % CTRL_PAGE_SIZE as int == 0
        }),
{
}

/// The stops of a segment that ends on a page boundary make up its bytes exactly.
proof fn lemma_stops_in_exact(addr: int, left: int)
    requires
        left > 0,
        left % CTRL_PAGE_SIZE as int == 0,
    ensures
        stops_in(addr, left).len() * CTRL_PAGE_SIZE == left,
{
}

/// What holds of the stop that byte `k` of the data lies in.
spec fn reached(s: PageStop, k: int, at: int) -> bool {
    &&& s.addr + k % CTRL_PAGE_SIZE as int == at
    &&& s.addr % CTRL_PAGE_SIZE as int == 0
    &&& s.left > 0
}

proof fn lemma_stops_from_reach(sg: Seq<ScatterList>, idx: int, count: int, k: int)
    requires
        gapless(sg, count),
        1 <= idx < count,
        0 <= k < total(sg, idx, count),
    ensures
        0 <= k / CTRL_PAGE_SIZE as int,
        k / (CTRL_PAGE_SIZE as int) < stops_from(sg, idx).len(),
        reached(stops_from(sg, idx)[k / CTRL_PAGE_SIZE as int], k, byte_addr(sg, idx, k)),
    decreases count - idx,
{
    let addr = sg[idx].dma_address as int;
    let len = sg[idx].dma_length as int;
    let here = stops_in(addr, len);
    assert(stops_from(sg, idx) == here + stops_from(sg, idx + 1));
    if k < len {
        lemma_stops_in_reach(addr, len, k);
        assert(stops_from(sg, idx)[k / CTRL_PAGE_SIZE as int] == here[k / CTRL_PAGE_SIZE as int]);
    } else {
        assert(total(sg, idx, count) == len + total(sg, idx + 1, count));
        assert(idx + 1 < count);
        lemma_stops_from_reach(sg, idx + 1, count, k - len);
        lemma_stops_in_exact(addr, len);
        assert(k / CTRL_PAGE_SIZE as int == here.len() + (k - len) / CTRL_PAGE_SIZE as int);
        assert(k % CTRL_PAGE_SIZE as int == (k - len) % CTRL_PAGE_SIZE as int);
    }
}

/// The page that byte `span + k` of the data lies in is stop number `k / page` after the first
/// page.
proof fn lemma_following_reach(sg: Seq<ScatterList>, count: int, k: int)
    requires
        gapless(sg, count),
        0 <= k < total(sg, 0, count) - first_span(sg),
    ensures
        0 <= k / CTRL_PAGE_SIZE as int,
        k / (CTRL_PAGE_SIZE as int) < following(sg).len(),
        reached(
            following(sg)[k / CTRL_PAGE_SIZE as int],
            k,
            byte_addr(sg, 0, first_span(sg) + k),
        ),
{
    let span = first_span(sg);
    let addr = sg[0].dma_address + span;
    let len = sg[0].dma_length - span;
    assert(total(sg, 0, count) == sg[0].dma_length + total(sg, 1, count));
    assert(addr % CTRL_PAGE_SIZE as int == 0);
    if len > 0 {
        let here = stops_in(addr, len);
        assert(following(sg) == here + stops_from(sg, 1));
        if k < len {
            lemma_stops_in_reach(addr, len, k);
        } else {
            assert(1 < count);
            lemma_stops_from_reach(sg, 1, count, k - len);
            lemma_stops_in_exact(addr, len);
            assert(k / CTRL_PAGE_SIZE as int == here.len() + (k - len) / CTRL_PAGE_SIZE as int);
            assert(k % CTRL_PAGE_SIZE as int == (k - len) % CTRL_PAGE_SIZE as int);
            assert(byte_addr(sg, 0, span + k) == byte_addr(sg, 1, k - len));
        }
    } else {
        assert(1 < count);
        assert(len == 0);
        lemma_stops_from_reach(sg, 1, count, k);
        assert(byte_addr(sg, 0, span + k) == byte_addr(sg, 1, k));
    }
}

/// Of a request whose segments leave no gap and whose pages all fit the two pointers and the
/// list, the controller finds every byte where it is.
pub proof fn law_plan_reaches_every_byte(
    sg: Seq<ScatterList>,
    count: int,
    length: int,
    plan: PrpPlan,
    k: int,
)
    requires
        gapless(sg, count),
        length == total(sg, 0, count),
        length <= first_span(sg) + MAX_SG * CTRL_PAGE_SIZE,
        plan.describes(sg, length),
        0 <= k < length,
    ensures
        plan.locates(k) == byte_addr(sg, 0, k),
{
    let span = first_span(sg);
    assert(total(sg, 0, count) == sg[0].dma_length + total(sg, 1, count));
    if k < span {
        if k >= sg[0].dma_length {
            assert(1 < count);
            assert((sg[0].dma_address + sg[0].dma_length) % CTRL_PAGE_SIZE as int == 0);
        }
    } else {
        lemma_following_reach(sg, count, k - span);
        assert((k - span) / (CTRL_PAGE_SIZE as int) < pages_in(length - span));
    }
}

/// Of such a request, every pointer after the first one is the address of a page.
pub proof fn law_further_pointers_are_pages(
    sg: Seq<ScatterList>,
    count: int,
    length: int,
    plan: PrpPlan,
)
    requires
        gapless(sg, count),
        length == total(sg, 0, count),
        length > first_span(sg),
        plan.describes(sg, length),
    ensures
        match plan {
            PrpPlan::Direct { prp1, prp2 } => prp2 as int % CTRL_PAGE_SIZE as int == 0,
            PrpPlan::List { prp1, entries } => forall|j: int|
                0 <= j < entries@.len() ==> #[trigger] entries@[j] as int % CTRL_PAGE_SIZE as int
                    == 0,
        },
{
    let span = first_span(sg);
    match plan {
        PrpPlan::Direct { prp1, prp2 } => {
            lemma_following_reach(sg, count, 0);
        },
        PrpPlan::List { prp1, entries } => {
            assert forall|j: int| 0 <= j < entries@.len() implies #[trigger] entries@[j] as int
                % CTRL_PAGE_SIZE as int == 0 by {
                lemma_following_reach(sg, count, j * CTRL_PAGE_SIZE);
                assert(j * CTRL_PAGE_SIZE / CTRL_PAGE_SIZE as int == j);
            }
        },
    }
}

/// A request whose segments leave no gap can be walked, whatever its size, unless its data runs
/// over the end of the address space or a page of its list is the last one there.
pub proof fn law_gapless_requests_are_walkable(sg: Seq<ScatterList>, count: int, length: int)
    requires
        gapless(sg, count),
        length == total(sg, 0, count),
        forall|k: int| 0 <= k < length ==> #[trigger] byte_addr(sg, 0, k) <= u64::MAX,
        length > first_span(sg) + CTRL_PAGE_SIZE ==> forall|k: int|
            first_span(sg) <= k < length && k < first_span(sg) + MAX_SG * CTRL_PAGE_SIZE ==>
                #[trigger] byte_addr(sg, 0, k) <= u64::MAX - CTRL_PAGE_SIZE,
    ensures
        walkable(sg, length),
{
    let span = first_span(sg);
    let rest = length - span;
    assert(total(sg, 0, count) == sg[0].dma_length + total(sg, 1, count));
    lemma_total_nonnegative(sg, 1, count);
    if rest > 0 {
        assert(byte_addr(sg, 0, span) <= u64::MAX);
    }
    if rest > CTRL_PAGE_SIZE {
        let last = (pages_in(rest) - 1) * CTRL_PAGE_SIZE;
        lemma_following_reach(sg, count, last);
        assert(last / CTRL_PAGE_SIZE as int == pages_in(rest) - 1);
        assert forall|j: int| 0 <= j < listed(rest) implies passable(
            #[trigger] following(sg)[j],
        ) by {
            lemma_following_reach(sg, count, j * CTRL_PAGE_SIZE);
            assert(j * CTRL_PAGE_SIZE / CTRL_PAGE_SIZE as int == j);
            assert(byte_addr(sg, 0, span + j * CTRL_PAGE_SIZE) <= u64::MAX - CTRL_PAGE_SIZE);
        }
    }
}

proof fn lemma_total_nonnegative(sg: Seq<ScatterList>, idx: int, count: int)
    ensures
        total(sg, idx, count) >= 0,
    decreases count - idx,
{
    if idx < count {
        lemma_total_nonnegative(sg, idx + 1, count);
    }
}

/// Reading a word as a two's complement number keeps it up to a multiple of 2 to the 32nd.
pub proof fn law_signed_number_is_the_same_word(x: u32, v: i32)
    requires
        call_ensures(to_signed, (x,), v),
    ensures
        x < 0x8000_0000 ==> v == x,
        x >= 0x8000_0000 ==> v + 0x1_0000_0000 == x,
{
}

/// How many pages of its own a segment of `len` bytes has in the list: as many as it takes up from
/// a page boundary on, and one where it has no bytes that can be counted.
pub open spec fn own_pages(len: u32) -> int {
    if 0 < len < 0x8000_0000 {
        (len + 4095) / 4096
    } else {
        1
    }
}

/// How many pages come in the list before those of segment `i`: what the first segment has after
/// its first page, and the pages of the segments in between.
pub open spec fn pages_before(sg: Seq<ScatterList>, i: int) -> int
    decreases i,
{
    if i <= 1 {
        let span = 4096 - sg[0].dma_address as int % 4096;
        if span < sg[0].dma_length < 0x8000_0000 {
            (sg[0].dma_length - span + 4095) / 4096
        } else {
            0
        }
    } else {
        pages_before(sg, i - 1) + own_pages(sg[i - 1].dma_length)
    }
}

/// The stops of segment `i` follow those of the segments before it.
#[verifier::spinoff_prover]
#[verifier::rlimit(40)]
proof fn lemma_stops_before(sg: Seq<ScatterList>, i: int)
    requires
        1 <= i <= sg.len(),
    ensures
        0 <= pages_before(sg, i) <= following(sg).len(),
        following(sg).skip(pages_before(sg, i)) =~= stops_from(sg, i),
    decreases i,
{
    if i > 1 {
        lemma_stops_before(sg, i - 1);
        let n = pages_before(sg, i - 1);
        let here = stops_in(sg[i - 1].dma_address as int, signed(sg[i - 1].dma_length));
        assert(stops_from(sg, i - 1) == here + stops_from(sg, i));
        assert(here.len() == own_pages(sg[i - 1].dma_length));
        assert((here + stops_from(sg, i)).skip(here.len() as int) =~= stops_from(sg, i));
        assert(following(sg).skip(n).skip(here.len() as int) =~= following(sg).skip(
            n + here.len(),
        ));
    } else {
        let span = first_span(sg);
        let left = signed(sg[0].dma_length) - span;
        if left > 0 {
            let here = stops_in(sg[0].dma_address + span, left);
            assert(following(sg) == here + stops_from(sg, 1));
            assert(here.len() == pages_before(sg, 1));
        }
        assert(following(sg).skip(pages_before(sg, i)) =~= stops_from(sg, i));
    }
}

/// The data pointers of a plan, told by the segments.
#[verifier::spinoff_prover]
#[verifier::rlimit(40)]
pub proof fn lemma_pointers_of_any_request(s: Seq<ScatterList>, length: int, plan: PrpPlan)
    requires
        s.len() == 16,
        plan.describes(s, length),
    ensures
        ({
            let start = s[0].dma_address;
            let span = 4096 - start as int % 4096;
            match plan {
                PrpPlan::Direct { prp1, prp2 } => {
                    &&& length <= span + 4096
                    &&& prp1 == start
                    &&& prp2 == if length <= span {
                        start as int
                    } else if span < s[0].dma_length < 0x8000_0000 {
                        start + span
                    } else {
                        s[1].dma_address as int
                    }
                },
                PrpPlan::List { prp1, entries } => {
                    &&& length > span + 4096
                    &&& prp1 == start
                    &&& length - span <= 16 * 4096 ==> 0 <= 4096 * entries@.len() - (length - span)
                        < 4096
                    &&& length - span > 16 * 4096 ==> entries@.len() == 16
                },
            }
        }),
{
    lemma_stops_before(s, 1);
    let left = signed(s[0].dma_length) - first_span(s);
    if left > 0 {
        lemma_stops_in_step(s[0].dma_address + first_span(s), left);
    } else {
        assert(stops_from(s, 1) == stops_in(s[1].dma_address as int, signed(s[1].dma_length))
            + stops_from(s, 2));
        lemma_stops_in_step(s[1].dma_address as int, signed(s[1].dma_length));
    }
}

/// The pages in the list of a plan, told by the segments.
#[verifier::spinoff_prover]
#[verifier::rlimit(40)]
pub proof fn lemma_list_in_order(
    s: Seq<ScatterList>,
    length: int,
    plan: PrpPlan,
    i: int,
    m: int,
)
    requires
        plan.describes(s, length),
        plan is List,
        0 <= i < s.len(),
        0 <= m,
    ensures
        ({
            let entries = plan->entries;
            &&& i == 0 && m < pages_before(s, 1) && m < entries@.len() ==> entries@[m]
                == s[0].dma_address + (4096 - s[0].dma_address as int % 4096) + 4096 * m
            &&& i > 0 && m < own_pages(s[i].dma_length) && pages_before(s, i) + m < entries@.len()
                ==> pages_before(s, i) >= 0 && entries@[pages_before(s, i) + m]
                == s[i].dma_address + 4096 * m
        }),
{
    if i == 0 {
        let span = first_span(s);
        if m < pages_before(s, 1) {
            let here = stops_in(s[0].dma_address + span, s[0].dma_length - span);
            assert(following(s) == here + stops_from(s, 1));
            assert(following(s)[m] == here[m]);
        }
    } else if m < own_pages(s[i].dma_length) {
        lemma_stops_before(s, i);
        let n = pages_before(s, i);
        let here = stops_in(s[i].dma_address as int, signed(s[i].dma_length));
        assert(stops_from(s, i) == here + stops_from(s, i + 1));
        assert(here.len() == own_pages(s[i].dma_length));
        assert(following(s).skip(n)[m] == following(s)[n + m]);
        assert(stops_from(s, i)[m] == here[m]);
    }
}

/// The data pointers of any request: the first one is where the first segment is. The second one
/// is the same again if the data ends in that page; it is where the data goes on if it ends in the
/// page after that, which is in the first segment or at the start of the second one. Else there is
/// a list, with an entry for each further page of the data up to sixteen.
pub proof fn law_data_pointers_of_any_request(
    sg: &[ScatterList; MAX_SG],
    length: i32,
    plan: Option<PrpPlan>,
)
    requires
        call_ensures(map_prps, (sg, length), plan),
    ensures
        ({
            let start = sg@[0].dma_address;
            let span = 4096 - start as int % 4096;
            plan matches Some(p) ==> match p {
                PrpPlan::Direct { prp1, prp2 } => {
                    &&& length <= span + 4096
                    &&& prp1 == start
                    &&& prp2 == if length <= span {
                        start as int
                    } else if span < sg@[0].dma_length < 0x8000_0000 {
                        start + span
                    } else {
                        sg@[1].dma_address as int
                    }
                },
                PrpPlan::List { prp1, entries } => {
                    &&& length > span + 4096
                    &&& prp1 == start
                    &&& length - span <= 16 * 4096 ==> 0 <= 4096 * entries@.len() - (length - span)
                        < 4096
                    &&& length - span > 16 * 4096 ==> entries@.len() == 16
                },
            }
        }),
{
    if plan is Some {
        lemma_pointers_of_any_request(sg@, length as int, plan->0);
    }
}

/// The list holds the pages of the segments one after the other: page `m` of segment `i` comes
/// after all pages of the segments before, and `m` after the start of its segment. This is so
/// whatever the segments are like.
pub proof fn law_list_holds_the_pages_in_order(
    sg: &[ScatterList; MAX_SG],
    length: i32,
    prp1: u64,
    entries: Vec<u64>,
    i: int,
    m: int,
)
    requires
        call_ensures(map_prps, (sg, length), Some(PrpPlan::List { prp1, entries })),
        1 <= i < 16,
        0 <= m < own_pages(sg@[i].dma_length),
        pages_before(sg@, i) + m < entries@.len(),
    ensures
        pages_before(sg@, i) + m >= 0,
        entries@[pages_before(sg@, i) + m] == sg@[i].dma_address + 4096 * m,
{
    lemma_stops_before(sg@, i);
    lemma_list_in_order(sg@, length as int, PrpPlan::List { prp1, entries }, i, m);
}

/// The list starts with the pages of the first segment after the one that the data starts in.
pub proof fn law_list_starts_in_the_first_segment(
    sg: &[ScatterList; MAX_SG],
    length: i32,
    prp1: u64,
    entries: Vec<u64>,
    m: int,
)
    requires
        call_ensures(map_prps, (sg, length), Some(PrpPlan::List { prp1, entries })),
        0 <= m < entries@.len(),
        sg@[0].dma_length < 0x8000_0000,
        4096 - sg@[0].dma_address as int % 4096 + 4096 * m < sg@[0].dma_length,
    ensures
        entries@[m] == sg@[0].dma_address + (4096 - sg@[0].dma_address as int % 4096) + 4096 * m,
{
    lemma_list_in_order(sg@, length as int, PrpPlan::List { prp1, entries }, 0, m);
}

/// The stops of segments that are neither at the end of the address space nor of a length at the
/// lower end of what can be counted can be left.
proof fn lemma_stops_from_passable(sg: Seq<ScatterList>, idx: int, j: int)
    requires
        forall|i: int|
            0 <= i < sg.len() ==> {
                &&& (#[trigger] sg[i]).dma_address <= u64::MAX - 0x1_0000_0000
                &&& sg[i].dma_length < 0x8000_0000 || sg[i].dma_length >= 0x8000_2000
            },
        0 <= idx,
        0 <= j < stops_from(sg, idx).len(),
    ensures
        passable(stops_from(sg, idx)[j]),
    decreases sg.len() - idx,
{
    if idx < sg.len() {
        let here = stops_in(sg[idx].dma_address as int, signed(sg[idx].dma_length));
        assert(stops_from(sg, idx) == here + stops_from(sg, idx + 1));
        if j >= here.len() {
            lemma_stops_from_passable(sg, idx + 1, j - here.len());
        }
    }
}

/// Data pointers are found for any request whose segments have pages enough for its data, or for a
/// list that is full and one page more. None of the segments may lie in the last 2 to the 32nd
/// bytes of the address space, and no length may be at the lower end of what can be counted.
pub proof fn law_pages_enough_give_data_pointers(
    sg: &[ScatterList; MAX_SG],
    length: i32,
    plan: Option<PrpPlan>,
)
    requires
        call_ensures(map_prps, (sg, length), plan),
        length >= -0x7fff_f000,
        forall|i: int|
            0 <= i < 16 ==> {
                &&& (#[trigger] sg@[i]).dma_address <= u64::MAX - 0x1_0000_0000
                &&& sg@[i].dma_length < 0x8000_0000 || sg@[i].dma_length >= 0x8000_2000
            },
        ({
            let rest = length - (4096 - sg@[0].dma_address as int % 4096);
            rest <= 4096 || rest <= 4096 * pages_before(sg@, 16) || pages_before(sg@, 16) > 16
        }),
    ensures
        plan is Some,
{
    let s = sg@;
    let rest = length - first_span(s);
    lemma_stops_before(s, 16);
    assert(stops_from(s, 16).len() == 0);
    assert(following(s).len() == pages_before(s, 16));
    if rest > 4096 {
        assert forall|j: int| 0 <= j < listed(rest) implies passable(
            #[trigger] following(s)[j],
        ) by {
            let span = first_span(s);
            let left = signed(s[0].dma_length) - span;
            if left > 0 {
                let here = stops_in(s[0].dma_address + span, left);
                assert(following(s) == here + stops_from(s, 1));
                if j >= here.len() {
                    lemma_stops_from_passable(s, 1, j - here.len());
                }
            } else {
                lemma_stops_from_passable(s, 1, j);
            }
        }
    }
    assert(walkable(s, length as int));
}

/// Of a request whose segments leave no gap and whose pages all fit the two pointers and the list,
/// the controller, which takes pages to be of 4096 bytes, finds every byte where it is.
pub proof fn law_controller_finds_every_byte(
    sg: &[ScatterList; MAX_SG],
    count: int,
    length: i32,
    plan: Option<PrpPlan>,
    k: int,
)
    requires
        call_ensures(map_prps, (sg, length), plan),
        plan is Some,
        gapless(sg@, count),
        length == total(sg@, 0, count),
        length <= 4096 - sg@[0].dma_address as int % 4096 + 16 * 4096,
        0 <= k < length,
    ensures
        ({
            let span = 4096 - sg@[0].dma_address as int % 4096;
            byte_addr(sg@, 0, k) == match plan->0 {
                PrpPlan::Direct { prp1, prp2 } => if k < span {
                    prp1 + k
                } else {
                    prp2 + (k - span)
                },
                PrpPlan::List { prp1, entries } => if k < span {
                    prp1 + k
                } else {
                    entries@[(k - span) / 4096] + (k - span) % 4096
                },
            }
        }),
{
    law_plan_reaches_every_byte(sg@, count, length as int, plan->0, k);
}

} // verus!
