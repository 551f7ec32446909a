//! How commands, completions and identify data lie in memory, byte by byte.
use vstd::prelude::*;

use crate::defs::{
    NvmeCommand, NvmeCommon, NvmeCompletion, NvmeCreateCq, NvmeCreateSq, NvmeFeatures, NvmeIdNs,
    NvmeIdentify, NvmeLbaf, NvmeRw, LBAF_COUNT,
};

verus! {

/// Byte `j` of a word, counted from the lowest one.
pub open spec fn byte_of(w: u32, j: int) -> u8 {
    if j == 0 {
        (w % 0x100) as u8
    } else if j == 1 {
        (w / 0x100 % 0x100) as u8
    } else if j == 2 {
        (w / 0x1_0000 % 0x100) as u8
    } else {
        (w / 0x100_0000) as u8
    }
}

/// Words as bytes, little endian.
pub open spec fn bytes_of(words: Seq<u32>) -> Seq<u8> {
    Seq::new(4 * words.len(), |i: int| byte_of(words[i / 4], i % 4))
}

/// The little endian number in two bytes.
pub open spec fn word16(b: Seq<u8>, at: int) -> u16 {
    (b[at] + b[at + 1] * 0x100) as u16
}

/// The little endian number in four bytes.
pub open spec fn word32(b: Seq<u8>, at: int) -> u32 {
    (word16(b, at) + word16(b, at + 2) * 0x1_0000) as u32
}

/// The little endian number in eight bytes.
pub open spec fn word64(b: Seq<u8>, at: int) -> u64 {
    (word32(b, at) + word32(b, at + 4) * 0x1_0000_0000) as u64
}

/// The sixteen words of a command.
pub open spec fn command_words(c: NvmeCommon) -> Seq<u32> {
    seq![
        (c.opcode + c.flags * 0x100 + c.command_id * 0x1_0000) as u32,
        c.nsid,
        c.cdw2,
        c.cdw3,
        (c.metadata % 0x1_0000_0000) as u32,
        (c.metadata / 0x1_0000_0000) as u32,
        (c.prp1 % 0x1_0000_0000) as u32,
        (c.prp1 / 0x1_0000_0000) as u32,
        (c.prp2 % 0x1_0000_0000) as u32,
        (c.prp2 / 0x1_0000_0000) as u32,
        c.cdw10,
        c.cdw11,
        c.cdw12,
        c.cdw13,
        c.cdw14,
        c.cdw15,
    ]
}

/// The 64 bytes of a command.
#[verifier::opaque]
pub open spec fn command_bytes(c: NvmeCommon) -> Seq<u8> {
    bytes_of(command_words(c))
}

/// The command in 64 bytes.
#[verifier::opaque]
pub open spec fn command_at(b: Seq<u8>) -> NvmeCommon {
    NvmeCommon {
        opcode: b[0],
        flags: b[1],
        command_id: word16(b, 2),
        nsid: word32(b, 4),
        cdw2: word32(b, 8),
        cdw3: word32(b, 12),
        metadata: word64(b, 16),
        prp1: word64(b, 24),
        prp2: word64(b, 32),
        cdw10: word32(b, 40),
        cdw11: word32(b, 44),
        cdw12: word32(b, 48),
        cdw13: word32(b, 52),
        cdw14: word32(b, 56),
        cdw15: word32(b, 60),
    }
}

fn push_word(out: &mut Vec<u8>, w: u32)
    ensures
        final(out)@.len() == old(out)@.len() + 4,
        forall|i: int| 0 <= i < old(out)@.len() ==> final(out)@[i] == old(out)@[i],
        forall|j: int| 0 <= j < 4 ==> final(out)@[old(out)@.len() + j] == byte_of(w, j),
{
    out.push((w % 0x100) as u8);
    out.push((w / 0x100 % 0x100) as u8);
    out.push((w / 0x1_0000 % 0x100) as u8);
    out.push((w / 0x100_0000) as u8);
}

fn split_low(v: u64) -> (w: u32)
    ensures
        w == v % 0x1_0000_0000,
{
    (v % 0x1_0000_0000) as u32
}

fn split_high(v: u64) -> (w: u32)
    ensures
        w == v / 0x1_0000_0000,
{
    (v / 0x1_0000_0000) as u32
}

impl NvmeCommand {
    /// The command as it goes into a submission queue.
    pub fn to_bytes(&self) -> (b: Vec<u8>)
        ensures
            b@ == command_bytes(self.common()),
            b@.len() == 64,
    {
        let c = self.as_common();
        let first: u32 = c.opcode as u32 + c.flags as u32 * 0x100 + c.command_id as u32 * 0x1_0000;
        let words: [u32; 16] = [
            first,
            c.nsid,
            c.cdw2,
            c.cdw3,
            split_low(c.metadata),
            split_high(c.metadata),
            split_low(c.prp1),
            split_high(c.prp1),
            split_low(c.prp2),
            split_high(c.prp2),
            c.cdw10,
            c.cdw11,
            c.cdw12,
            c.cdw13,
            c.cdw14,
            c.cdw15,
        ];
        assert(words@ =~= command_words(c));
        let mut b: Vec<u8> = Vec::new();
        let mut i: usize = 0;
        while i < 16
            invariant
                i <= 16,
                words@.len() == 16,
                b@.len() == 4 * i,
                forall|j: int| 0 <= j < 4 * i ==> #[trigger] b@[j] == byte_of(words@[j / 4], j % 4),
            decreases 16 - i,
        {
            let ghost before = b@;
            push_word(&mut b, words[i]);
            assert forall|j: int| 0 <= j < 4 * i + 4 implies #[trigger] b@[j] == byte_of(
                words@[j / 4],
                j % 4,
            ) by {
                if j < 4 * i {
                    assert(b@[j] == before[j]);
                } else {
                    assert(b@[before.len() + (j - 4 * i)] == byte_of(words@[i as int], j - 4 * i));
                }
            }
            i = i + 1;
        }
        reveal(command_bytes);
        assert(b@ =~= command_bytes(c));
        b
    }
}

fn get16(b: &[u8], at: usize) -> (v: u16)
    requires
        at + 2 <= b@.len(),
    ensures
        v == word16(b@, at as int),
{
    b[at] as u16 + b[at + 1] as u16 * 0x100
}

fn get32(b: &[u8], at: usize) -> (v: u32)
    requires
        at + 4 <= b@.len(),
        at + 4 <= usize::MAX,
    ensures
        v == word32(b@, at as int),
{
    get16(b, at) as u32 + get16(b, at + 2) as u32 * 0x1_0000
}

fn get64(b: &[u8], at: usize) -> (v: u64)
    requires
        at + 8 <= b@.len(),
        at + 8 <= usize::MAX,
    ensures
        v == word64(b@, at as int),
{
    get32(b, at) as u64 + get32(b, at + 4) as u64 * 0x1_0000_0000
}

/// How many bytes an entry of a completion queue has.
pub const COMPLETION_LEN: usize = 16;

/// How many bytes of the identify data of a namespace are read.
pub const ID_NS_LEN: usize = 192;

/// Where the formats start in the identify data of a namespace.
pub const ID_NS_LBAF: usize = 128;

/// The completion in 16 bytes.
pub open spec fn completion_at(b: Seq<u8>) -> NvmeCompletion {
    NvmeCompletion {
        result: word32(b, 0),
        sq_head: word16(b, 8),
        sq_id: word16(b, 10),
        command_id: word16(b, 12),
        status: word16(b, 14),
    }
}

impl NvmeCompletion {
    /// Reads an entry of a completion queue.
    pub fn from_bytes(b: &[u8]) -> (c: NvmeCompletion)
        requires
            b@.len() >= COMPLETION_LEN,
        ensures
            c == completion_at(b@),
    {
        NvmeCompletion {
            result: get32(b, 0),
            sq_head: get16(b, 8),
            sq_id: get16(b, 10),
            command_id: get16(b, 12),
            status: get16(b, 14),
        }
    }
}

/// Format number `i` in the identify data of a namespace.
pub open spec fn lbaf_at(b: Seq<u8>, i: int) -> NvmeLbaf {
    NvmeLbaf {
        ms: word16(b, ID_NS_LBAF + 4 * i),
        ds: b[ID_NS_LBAF + 4 * i + 2],
        rp: b[ID_NS_LBAF + 4 * i + 3],
    }
}

impl NvmeIdNs {
    /// This is what the identify data `b` say.
    pub open spec fn read_from(self, b: Seq<u8>) -> bool {
        &&& self.nsze == word64(b, 0)
        &&& self.ncap == word64(b, 8)
        &&& self.flbas == b[26]
        &&& forall|i: int| 0 <= i < LBAF_COUNT ==> #[trigger] self.lbaf@[i] == lbaf_at(b, i)
    }

    /// Reads the identify data of a namespace.
    pub fn from_bytes(b: &[u8]) -> (ns: NvmeIdNs)
        requires
            b@.len() >= ID_NS_LEN,
        ensures
            ns.read_from(b@),
    {
        let none = NvmeLbaf { ms: 0, ds: 0, rp: 0 };
        let mut lbaf: [NvmeLbaf; LBAF_COUNT] = [none; LBAF_COUNT];
        let mut i: usize = 0;
        while i < LBAF_COUNT
            invariant
                i <= LBAF_COUNT,
                b@.len() >= ID_NS_LEN,
                forall|j: int| 0 <= j < i ==> #[trigger] lbaf@[j] == lbaf_at(b@, j),
            decreases LBAF_COUNT - i,
        {
            let at: usize = ID_NS_LBAF + 4 * i;
            lbaf[i] = NvmeLbaf { ms: get16(b, at), ds: b[at + 2], rp: b[at + 3] };
            i = i + 1;
        }
        NvmeIdNs { nsze: get64(b, 0), ncap: get64(b, 8), flbas: b[26], lbaf }
    }
}

/// The bytes of words give the words back.
proof fn lemma_word_of_bytes(words: Seq<u32>, i: int)
    requires
        0 <= i < words.len(),
    ensures
        word32(bytes_of(words), 4 * i) == words[i],
        bytes_of(words)[4 * i] == words[i] % 0x100,
        bytes_of(words)[4 * i + 1] == words[i] / 0x100 % 0x100,
        word16(bytes_of(words), 4 * i + 2) == words[i] / 0x1_0000,
{
    let b = bytes_of(words);
    let w = words[i];
    assert(b[4 * i] == byte_of(w, 0));
    assert(b[4 * i + 1] == byte_of(w, 1));
    assert(b[4 * i + 2] == byte_of(w, 2));
    assert(b[4 * i + 3] == byte_of(w, 3));
}

/// Words that hold the fields of a command give the command back.
#[verifier::spinoff_prover]
#[verifier::rlimit(40)]
proof fn lemma_command_of_words(w: Seq<u32>, c: NvmeCommon)
    requires
        w.len() == 16,
        w[0] == c.opcode + c.flags * 0x100 + c.command_id * 0x1_0000,
        w[1] == c.nsid,
        w[2] == c.cdw2,
        w[3] == c.cdw3,
        w[4] + w[5] * 0x1_0000_0000 == c.metadata,
        w[6] + w[7] * 0x1_0000_0000 == c.prp1,
        w[8] + w[9] * 0x1_0000_0000 == c.prp2,
        w[10] == c.cdw10,
        w[11] == c.cdw11,
        w[12] == c.cdw12,
        w[13] == c.cdw13,
        w[14] == c.cdw14,
        w[15] == c.cdw15,
    ensures
        command_at(bytes_of(w)) == c,
{
    reveal(command_at);
    let b = bytes_of(w);
    assert(b[0] == c.opcode && b[1] == c.flags && word16(b, 2) == c.command_id) by {
        lemma_word_of_bytes(w, 0);
    }
    assert(word32(b, 4) == w[1]) by {
        lemma_word_of_bytes(w, 1);
    }
    assert(word32(b, 8) == w[2]) by {
        lemma_word_of_bytes(w, 2);
    }
    assert(word32(b, 12) == w[3]) by {
        lemma_word_of_bytes(w, 3);
    }
    assert(word64(b, 16) == c.metadata) by {
        lemma_word_of_bytes(w, 4);
        lemma_word_of_bytes(w, 5);
    }
    assert(word64(b, 24) == c.prp1) by {
        lemma_word_of_bytes(w, 6);
        lemma_word_of_bytes(w, 7);
    }
    assert(word64(b, 32) == c.prp2) by {
        lemma_word_of_bytes(w, 8);
        lemma_word_of_bytes(w, 9);
    }
    assert(word32(b, 40) == w[10]) by {
        lemma_word_of_bytes(w, 10);
    }
    assert(word32(b, 44) == w[11]) by {
        lemma_word_of_bytes(w, 11);
    }
    assert(word32(b, 48) == w[12]) by {
        lemma_word_of_bytes(w, 12);
    }
    assert(word32(b, 52) == w[13]) by {
        lemma_word_of_bytes(w, 13);
    }
    assert(word32(b, 56) == w[14]) by {
        lemma_word_of_bytes(w, 14);
    }
    assert(word32(b, 60) == w[15]) by {
        lemma_word_of_bytes(w, 15);
    }
}

/// The bytes of a command give the command back.
pub proof fn law_command_bytes_read_back(c: NvmeCommon)
    ensures
        command_bytes(c).len() == 64,
        command_at(command_bytes(c)) == c,
{
    reveal(command_bytes);
    lemma_command_of_words(command_words(c), c);
}

/// The number in the two bytes at `at`, lowest byte first.
pub open spec fn le16(b: Seq<u8>, at: int) -> int {
    b[at] + 0x100 * b[at + 1]
}

/// The number in the four bytes at `at`, lowest byte first.
pub open spec fn le32(b: Seq<u8>, at: int) -> int {
    b[at] + 0x100 * b[at + 1] + 0x1_0000 * b[at + 2] + 0x100_0000 * b[at + 3]
}

/// The number in the eight bytes at `at`, lowest byte first.
pub open spec fn le64(b: Seq<u8>, at: int) -> int {
    le32(b, at) + 0x1_0000_0000 * le32(b, at + 4)
}

/// The bytes of word number `i` make up the word.
proof fn lemma_bytes_of_word(words: Seq<u32>, i: int)
    requires
        0 <= i < words.len(),
    ensures
        le32(bytes_of(words), 4 * i) == words[i],
        le16(bytes_of(words), 4 * i) == words[i] % 0x1_0000,
        le16(bytes_of(words), 4 * i + 2) == words[i] / 0x1_0000,
        bytes_of(words)[4 * i] == words[i] % 0x100,
        bytes_of(words)[4 * i + 1] == words[i] / 0x100 % 0x100,
{
    let b = bytes_of(words);
    let w = words[i];
    assert(b[4 * i] == byte_of(w, 0));
    assert(b[4 * i + 1] == byte_of(w, 1));
    assert(b[4 * i + 2] == byte_of(w, 2));
    assert(b[4 * i + 3] == byte_of(w, 3));
}

/// A command is at its places if every number of it is.
proof fn lemma_places(b: Seq<u8>, c: NvmeCommon)
    requires
        b.len() == 64,
        b[0] == c.opcode,
        b[1] == c.flags,
        le16(b, 2) == c.command_id,
        le32(b, 4) == c.nsid,
        le32(b, 8) == c.cdw2,
        le32(b, 12) == c.cdw3,
        le64(b, 16) == c.metadata,
        le64(b, 24) == c.prp1,
        le64(b, 32) == c.prp2,
        le32(b, 40) == c.cdw10,
        le32(b, 44) == c.cdw11,
        le32(b, 48) == c.cdw12,
        le32(b, 52) == c.cdw13,
        le32(b, 56) == c.cdw14,
        le32(b, 60) == c.cdw15,
    ensures
        at_their_places(b, c),
{
    reveal(at_their_places);
}

/// Words that hold the fields of a command have their bytes at the places of the fields.
#[verifier::spinoff_prover]
#[verifier::rlimit(40)]
proof fn lemma_places_of_words(w: Seq<u32>, c: NvmeCommon)
    requires
        w.len() == 16,
        w[0] == c.opcode + c.flags * 0x100 + c.command_id * 0x1_0000,
        w[1] == c.nsid,
        w[2] == c.cdw2,
        w[3] == c.cdw3,
        w[4] + w[5] * 0x1_0000_0000 == c.metadata,
        w[6] + w[7] * 0x1_0000_0000 == c.prp1,
        w[8] + w[9] * 0x1_0000_0000 == c.prp2,
        w[10] == c.cdw10,
        w[11] == c.cdw11,
        w[12] == c.cdw12,
        w[13] == c.cdw13,
        w[14] == c.cdw14,
        w[15] == c.cdw15,
    ensures
        at_their_places(bytes_of(w), c),
{
    let b = bytes_of(w);
    assert(b[0] == c.opcode && b[1] == c.flags && le16(b, 2) == c.command_id) by {
        lemma_bytes_of_word(w, 0);
    }
    assert(le32(b, 4) == w[1]) by {
        lemma_bytes_of_word(w, 1);
    }
    assert(le32(b, 8) == w[2]) by {
        lemma_bytes_of_word(w, 2);
    }
    assert(le32(b, 12) == w[3]) by {
        lemma_bytes_of_word(w, 3);
    }
    assert(le64(b, 16) == c.metadata) by {
        lemma_bytes_of_word(w, 4);
        lemma_bytes_of_word(w, 5);
    }
    assert(le64(b, 24) == c.prp1) by {
        lemma_bytes_of_word(w, 6);
        lemma_bytes_of_word(w, 7);
    }
    assert(le64(b, 32) == c.prp2) by {
        lemma_bytes_of_word(w, 8);
        lemma_bytes_of_word(w, 9);
    }
    assert(le32(b, 40) == w[10]) by {
        lemma_bytes_of_word(w, 10);
    }
    assert(le32(b, 44) == w[11]) by {
        lemma_bytes_of_word(w, 11);
    }
    assert(le32(b, 48) == w[12]) by {
        lemma_bytes_of_word(w, 12);
    }
    assert(le32(b, 52) == w[13]) by {
        lemma_bytes_of_word(w, 13);
    }
    assert(le32(b, 56) == w[14]) by {
        lemma_bytes_of_word(w, 14);
    }
    assert(le32(b, 60) == w[15]) by {
        lemma_bytes_of_word(w, 15);
    }
    assert(b.len() == 64);
    lemma_places(b, c);
}

/// Every number of a command is at its place in `b`.
#[verifier::opaque]
pub open spec fn at_their_places(b: Seq<u8>, c: NvmeCommon) -> bool {
    &&& b.len() == 64
    &&& b[0] == c.opcode
    &&& b[1] == c.flags
    &&& le16(b, 2) == c.command_id
    &&& le32(b, 4) == c.nsid
    &&& le32(b, 8) == c.cdw2
    &&& le32(b, 12) == c.cdw3
    &&& le64(b, 16) == c.metadata
    &&& le64(b, 24) == c.prp1
    &&& le64(b, 32) == c.prp2
    &&& le32(b, 40) == c.cdw10
    &&& le32(b, 44) == c.cdw11
    &&& le32(b, 48) == c.cdw12
    &&& le32(b, 52) == c.cdw13
    &&& le32(b, 56) == c.cdw14
    &&& le32(b, 60) == c.cdw15
}

/// The bytes of a command have every number of it at its place.
#[verifier::spinoff_prover]
#[verifier::rlimit(40)]
pub proof fn lemma_bytes_at_their_places(c: NvmeCommon)
    ensures
        at_their_places(command_bytes(c), c),
{
    reveal(command_bytes);
    lemma_places_of_words(command_words(c), c);
}

/// The command that creates a completion queue lies in memory as the device reads it: every number
/// at its place, lowest byte first, and zero elsewhere.
#[verifier::spinoff_prover]
#[verifier::rlimit(40)]
pub proof fn law_create_cq_command_in_memory(c: NvmeCreateCq, cmd: &NvmeCommand, b: Vec<u8>)
    requires
        *cmd == NvmeCommand::CreateCq(c),
        call_ensures(NvmeCommand::to_bytes, (cmd,), b),
    ensures
        b@.len() == 64,
        b@[0] == c.opcode,
        b@[1] == c.flags,
        le16(b@, 2) == c.command_id,
        le64(b@, 24) == c.prp1,
        le16(b@, 40) == c.cqid,
        le16(b@, 42) == c.qsize,
        le16(b@, 44) == c.cq_flags,
        le16(b@, 46) == c.irq_vector,
        forall|i: int|
            4 <= i < 24 || 32 <= i < 40 || 48 <= i < 64 ==> #[trigger] b@[i] == 0,
{
    lemma_bytes_at_their_places(cmd.common());
    reveal(at_their_places);
}

/// The command that creates a submission queue lies in memory as the device reads it: every number
/// at its place, lowest byte first, and zero elsewhere.
#[verifier::spinoff_prover]
#[verifier::rlimit(40)]
pub proof fn law_create_sq_command_in_memory(c: NvmeCreateSq, cmd: &NvmeCommand, b: Vec<u8>)
    requires
        *cmd == NvmeCommand::CreateSq(c),
        call_ensures(NvmeCommand::to_bytes, (cmd,), b),
    ensures
        b@.len() == 64,
        b@[0] == c.opcode,
        b@[1] == c.flags,
        le16(b@, 2) == c.command_id,
        le64(b@, 24) == c.prp1,
        le16(b@, 40) == c.sqid,
        le16(b@, 42) == c.qsize,
        le16(b@, 44) == c.sq_flags,
        le16(b@, 46) == c.cqid,
        forall|i: int|
            4 <= i < 24 || 32 <= i < 40 || 48 <= i < 64 ==> #[trigger] b@[i] == 0,
{
    lemma_bytes_at_their_places(cmd.common());
    reveal(at_their_places);
}

/// The command that gets or sets a feature lies in memory as the device reads it: every number
/// at its place, lowest byte first, and zero elsewhere.
#[verifier::spinoff_prover]
#[verifier::rlimit(40)]
pub proof fn law_features_command_in_memory(c: NvmeFeatures, cmd: &NvmeCommand, b: Vec<u8>)
    requires
        *cmd == NvmeCommand::Features(c),
        call_ensures(NvmeCommand::to_bytes, (cmd,), b),
    ensures
        b@.len() == 64,
        b@[0] == c.opcode,
        b@[1] == c.flags,
        le16(b@, 2) == c.command_id,
        le32(b@, 4) == c.nsid,
        le64(b@, 24) == c.prp1,
        le64(b@, 32) == c.prp2,
        le32(b@, 40) == c.fid,
        le32(b@, 44) == c.dword11,
        forall|i: int| 8 <= i < 24 || 48 <= i < 64 ==> #[trigger] b@[i] == 0,
{
    lemma_bytes_at_their_places(cmd.common());
    reveal(at_their_places);
}

/// The command that asks for identify data lies in memory as the device reads it: every number
/// at its place, lowest byte first, and zero elsewhere.
#[verifier::spinoff_prover]
#[verifier::rlimit(40)]
pub proof fn law_identify_command_in_memory(c: NvmeIdentify, cmd: &NvmeCommand, b: Vec<u8>)
    requires
        *cmd == NvmeCommand::Identify(c),
        call_ensures(NvmeCommand::to_bytes, (cmd,), b),
    ensures
        b@.len() == 64,
        b@[0] == c.opcode,
        b@[1] == c.flags,
        le16(b@, 2) == c.command_id,
        le32(b@, 4) == c.nsid,
        le64(b@, 24) == c.prp1,
        le64(b@, 32) == c.prp2,
        le32(b@, 40) == c.cns,
        forall|i: int| 8 <= i < 24 || 44 <= i < 64 ==> #[trigger] b@[i] == 0,
{
    lemma_bytes_at_their_places(cmd.common());
    reveal(at_their_places);
}

/// The command that reads or writes lies in memory as the device reads it: every number
/// at its place, lowest byte first, and zero elsewhere.
#[verifier::spinoff_prover]
#[verifier::rlimit(40)]
pub proof fn law_rw_command_in_memory(c: NvmeRw, cmd: &NvmeCommand, b: Vec<u8>)
    requires
        *cmd == NvmeCommand::Rw(c),
        call_ensures(NvmeCommand::to_bytes, (cmd,), b),
    ensures
        b@.len() == 64,
        b@[0] == c.opcode,
        b@[1] == c.flags,
        le16(b@, 2) == c.command_id,
        le32(b@, 4) == c.nsid,
        le64(b@, 16) == c.metadata,
        le64(b@, 24) == c.prp1,
        le64(b@, 32) == c.prp2,
        le64(b@, 40) == c.slba,
        le16(b@, 48) == c.length,
        le16(b@, 50) == c.control,
        le32(b@, 52) == c.dsmgmt,
        le32(b@, 56) == c.reftag,
        le16(b@, 60) == c.apptag,
        le16(b@, 62) == c.appmask,
        forall|i: int| 8 <= i < 16 ==> #[trigger] b@[i] == 0,
{
    lemma_bytes_at_their_places(cmd.common());
    reveal(at_their_places);
}

/// A command in the layout that all commands share lies in memory as the device reads it: every
/// number at its place, lowest byte first.
#[verifier::spinoff_prover]
#[verifier::rlimit(40)]
pub proof fn law_common_command_in_memory(c: NvmeCommon, cmd: &NvmeCommand, b: Vec<u8>)
    requires
        *cmd == NvmeCommand::Common(c),
        call_ensures(NvmeCommand::to_bytes, (cmd,), b),
    ensures
        b@.len() == 64,
        b@[0] == c.opcode,
        b@[1] == c.flags,
        le16(b@, 2) == c.command_id,
        le32(b@, 4) == c.nsid,
        le32(b@, 8) == c.cdw2,
        le32(b@, 12) == c.cdw3,
        le64(b@, 16) == c.metadata,
        le64(b@, 24) == c.prp1,
        le64(b@, 32) == c.prp2,
        le32(b@, 40) == c.cdw10,
        le32(b@, 44) == c.cdw11,
        le32(b@, 48) == c.cdw12,
        le32(b@, 52) == c.cdw13,
        le32(b@, 56) == c.cdw14,
        le32(b@, 60) == c.cdw15,
{
    lemma_bytes_at_their_places(cmd.common());
    reveal(at_their_places);
}

/// An entry of a completion queue is read from its place in memory, lowest byte first.
#[verifier::spinoff_prover]
#[verifier::rlimit(40)]
pub proof fn law_completion_is_read_from_memory(b: &[u8], c: NvmeCompletion)
    requires
        b@.len() >= 16,
        call_ensures(NvmeCompletion::from_bytes, (b,), c),
    ensures
        call_requires(NvmeCompletion::from_bytes, (b,)),
        c.result == le32(b@, 0),
        c.sq_head == le16(b@, 8),
        c.sq_id == le16(b@, 10),
        c.command_id == le16(b@, 12),
        c.status == le16(b@, 14),
{
}

/// Identify data of a namespace are read from their place in memory, lowest byte first: sizes,
/// the number of the format in use, and sixteen formats.
#[verifier::spinoff_prover]
#[verifier::rlimit(40)]
pub proof fn law_namespace_is_read_from_memory(b: &[u8], ns: NvmeIdNs)
    requires
        b@.len() >= 192,
        call_ensures(NvmeIdNs::from_bytes, (b,), ns),
    ensures
        call_requires(NvmeIdNs::from_bytes, (b,)),
        ns.nsze == le64(b@, 0),
        ns.ncap == le64(b@, 8),
        ns.flbas == b@[26],
        ns.lbaf@.len() == 16,
        forall|i: int|
            0 <= i < 16 ==> {
                &&& (#[trigger] ns.lbaf@[i]).ms == le16(b@, 128 + 4 * i)
                &&& ns.lbaf@[i].ds == b@[130 + 4 * i]
                &&& ns.lbaf@[i].rp == b@[131 + 4 * i]
            },
{
}

/// A command and the same command read in the layout that all commands share lie in memory alike.
pub proof fn law_shared_layout_has_the_same_bytes(
    cmd: &NvmeCommand,
    c: NvmeCommon,
    bytes: Vec<u8>,
    shared: Vec<u8>,
)
    requires
        call_ensures(NvmeCommand::as_common, (cmd,), c),
        call_ensures(NvmeCommand::to_bytes, (cmd,), bytes),
        call_ensures(NvmeCommand::to_bytes, (&NvmeCommand::Common(c),), shared),
    ensures
        bytes@ == shared@,
{
}

} // verus!
