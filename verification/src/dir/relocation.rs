//! The base-relocation table: page-keyed blocks of 16-bit entries.

use vstd::prelude::*;

use crate::dir::{DataDirectory, DataDirectoryTable, DataDirectoryType};
use crate::error::Error;
use crate::mem::{u16_at, u32_at, ByteReader, FromBytes, SkipPos};

verus! {

/// Relocation entry of a relocation block, by its documented type.
#[derive(Clone, Copy, Debug, PartialEq, Eq)]
pub enum Relocation {
    Absolute(u16),
    High(u16),
    Low(u16),
    HighLow(u16),
    HighAdj(u16),
    MipsArmRiscv(u16),
    ThumbRiscv(u16),
    RiscvLoong(u16),
    JmpAddr(u16),
    Dir64(u16),
}

/// Whether `k` is a documented relocation type: 0 through 5, or 7 through
/// 10.
pub open spec fn spec_reloc_kind_known(k: u16) -> bool {
    k <= 5 || (7 <= k <= 0xA)
}

/// The relocation value for a known type `k` carrying offset `off`.
pub open spec fn spec_relocation_for(k: u16, off: u16) -> Relocation {
    if k == 0 {
        Relocation::Absolute(off)
    } else if k == 1 {
        Relocation::High(off)
    } else if k == 2 {
        Relocation::Low(off)
    } else if k == 3 {
        Relocation::HighLow(off)
    } else if k == 4 {
        Relocation::HighAdj(off)
    } else if k == 5 {
        Relocation::MipsArmRiscv(off)
    } else if k == 7 {
        Relocation::ThumbRiscv(off)
    } else if k == 8 {
        Relocation::RiscvLoong(off)
    } else if k == 9 {
        Relocation::JmpAddr(off)
    } else {
        Relocation::Dir64(off)
    }
}

/// Header of a relocation block: the page RVA its entries relocate, and the
/// block's total size, header included.
#[derive(Clone, Copy, Debug)]
pub struct RelocationHead {
    pub page_rva: u32,
    pub block_size: u32,
}

/// The block header whose eight on-disk bytes sit at `[p, p + 8)` of `s`.
pub open spec fn spec_relocation_head_at(s: Seq<u8>, p: int) -> RelocationHead {
    RelocationHead { page_rva: u32_at(s, p), block_size: u32_at(s, p + 4) }
}

impl FromBytes for RelocationHead {
    open spec fn spec_size() -> int {
        8
    }

    open spec fn spec_align() -> int {
        4
    }

    open spec fn decodes_from(self, s: Seq<u8>, p: int) -> bool {
        self == spec_relocation_head_at(s, p)
    }

    fn exec_size() -> usize {
        8
    }

    fn exec_align() -> usize {
        4
    }

    fn decode_at(bytes: &[u8], p: usize) -> Self {
        let n = bytes.len();
        RelocationHead {
            page_rva: crate::mem::read_u32_le(bytes, p),
            block_size: crate::mem::read_u32_le(bytes, p + 4),
        }
    }
}

/// A 16-bit relocation entry: a 4-bit type in the high nibble and a 12-bit
/// page offset in the low bits.
#[derive(Clone, Copy, Debug)]
pub struct RelocationEntry(pub u16);

impl RelocationEntry {
    /// The entry's 12-bit page offset.
    pub open spec fn spec_offset(self) -> u16 {
        self.0 & 0x0FFF
    }

    /// The entry's 4-bit type.
    pub open spec fn spec_kind(self) -> u16 {
        self.0 >> 12
    }

    /// Returns the entry's 12-bit page offset.
    pub fn offset(&self) -> (r: u16)
        ensures
            r == self.spec_offset(),
    {
        self.0 & 0x0FFF
    }

    /// Returns the entry's 4-bit type.
    pub fn kind(&self) -> (r: u16)
        ensures
            r == self.spec_kind(),
    {
        self.0 >> 12
    }
}

impl FromBytes for RelocationEntry {
    open spec fn spec_size() -> int {
        2
    }

    open spec fn spec_align() -> int {
        2
    }

    open spec fn decodes_from(self, s: Seq<u8>, p: int) -> bool {
        self.0 == u16_at(s, p)
    }

    fn exec_size() -> usize {
        2
    }

    fn exec_align() -> usize {
        2
    }

    fn decode_at(bytes: &[u8], p: usize) -> Self {
        RelocationEntry(crate::mem::read_u16_le(bytes, p))
    }
}

impl Relocation {
    /// Converts an entry to its typed relocation; an unknown type is
    /// `Malformed`.
    pub fn try_from(value: &RelocationEntry) -> (r: Result<Relocation, Error>)
        ensures
            r is Ok <==> spec_reloc_kind_known(value.spec_kind()),
            r is Ok ==> r->Ok_0 == spec_relocation_for(value.spec_kind(), value.spec_offset()),
            r is Err ==> r->Err_0 is Malformed,
    {
        let k = value.kind();
        let off = value.offset();
        if k == 0 {
            Ok(Relocation::Absolute(off))
        } else if k == 1 {
            Ok(Relocation::High(off))
        } else if k == 2 {
            Ok(Relocation::Low(off))
        } else if k == 3 {
            Ok(Relocation::HighLow(off))
        } else if k == 4 {
            Ok(Relocation::HighAdj(off))
        } else if k == 5 {
            Ok(Relocation::MipsArmRiscv(off))
        } else if k == 7 {
            Ok(Relocation::ThumbRiscv(off))
        } else if k == 8 {
            Ok(Relocation::RiscvLoong(off))
        } else if k == 9 {
            Ok(Relocation::JmpAddr(off))
        } else if k == 0xA {
            Ok(Relocation::Dir64(off))
        } else {
            Error::make_malformed("relocation entry has an invalid type".to_owned())
        }
    }
}

/// What one step of the block iterator yields over the block bytes `s` at
/// cursor `c`: `None` at the end of the bytes, `Some(None)` for an error
/// item, `Some(Some(rel))` for a decoded entry.
pub open spec fn spec_block_step_item(s: Seq<u8>, c: int) -> Option<Option<Relocation>> {
    if c + 2 > s.len() {
        None
    } else if c % 2 != 0 {
        Some(None)
    } else {
        let e = RelocationEntry(u16_at(s, c));
        if spec_reloc_kind_known(e.spec_kind()) {
            Some(Some(spec_relocation_for(e.spec_kind(), e.spec_offset())))
        } else {
            Some(None)
        }
    }
}

/// The block cursor after one step.
pub open spec fn spec_block_step_cursor(s: Seq<u8>, c: int) -> int {
    if c + 2 > s.len() {
        c
    } else if c % 2 != 0 {
        c
    } else {
        c + 2
    }
}

/// Iterator over the entries of a single relocation block.
pub struct RelocationBlock<'a> {
    head: RelocationHead,
    data: ByteReader<'a>,
}

impl<'a> RelocationBlock<'a> {
    /// The block's header.
    pub closed spec fn spec_head(self) -> RelocationHead {
        self.head
    }

    /// The reader over the block's entry bytes.
    pub closed spec fn spec_data(self) -> ByteReader<'a> {
        self.data
    }

    /// Creates a block iterator over `data`, the entry bytes of the block
    /// that `head` describes.
    pub fn new(data: &'a [u8], head: &RelocationHead) -> (r: Self)
        ensures
            r.spec_head() == *head,
            r.spec_data().buf() == data@,
            r.spec_data().cursor() == 0,
            !r.spec_data().has_base(),
    {
        Self { data: ByteReader::new(data), head: *head }
    }

    /// Returns the `page_rva` field of the block header.
    pub fn page_rva(&self) -> (r: u32)
        ensures
            r == self.spec_head().page_rva,
    {
        self.head.page_rva
    }

    /// Returns the number of entries in this block.
    pub fn entry_count(&self) -> (r: usize)
        requires
            self.spec_head().block_size >= 8,
        ensures
            r == (self.spec_head().block_size - 8) as int / 2,
    {
        (self.head.block_size as usize - 8) / 2
    }

    /// Yields the next relocation entry: `None` once the block's bytes are
    /// exhausted, an error item for a read at an unaligned position or an
    /// entry of unknown type.
    pub fn next(&mut self) -> (r: Option<Result<Relocation, Error>>)
        ensures
            final(self).spec_head() == old(self).spec_head(),
            final(self).spec_data().buf() == old(self).spec_data().buf(),
            final(self).spec_data().has_base() == old(self).spec_data().has_base(),
            final(self).spec_data().base() == old(self).spec_data().base(),
            final(self).spec_data().cursor() == spec_block_step_cursor(
                old(self).spec_data().buf(),
                old(self).spec_data().cursor(),
            ),
            match spec_block_step_item(old(self).spec_data().buf(), old(self).spec_data().cursor()) {
                None => r is None,
                Some(None) => r is Some && r->Some_0 is Err,
                Some(Some(rel)) => r == Some(Result::<Relocation, Error>::Ok(rel)),
            },
            r is Some && r->Some_0 is Err ==> {
                let c = old(self).spec_data().cursor();
                if c % 2 != 0 {
                    r->Some_0->Err_0 is Misaligned
                } else {
                    r->Some_0->Err_0 is Malformed
                }
            },
    {
        match self.data.read::<RelocationEntry>() {
            Ok(entry) => {
                match Relocation::try_from(&entry) {
                    Ok(v) => Some(Ok(v)),
                    Err(e) => Some(Err(e)),
                }
            },
            Err(Error::InsufficientBuffer) => None,
            Err(e) => Some(Err(e)),
        }
    }
}

/// What one step of the relocation-table iterator yields over the directory
/// bytes `s` at cursor `c`: `None` at the end of the stream or on a
/// terminating header, otherwise the block header and the block's body
/// bytes, or the error that reading them raised.
pub open spec fn spec_reloc_table_step(s: Seq<u8>, c: int) -> Option<
    Result<(RelocationHead, Seq<u8>), Error>,
> {
    if c + 8 > s.len() {
        None
    } else if c % 4 != 0 {
        Some(Err(Error::Misaligned))
    } else {
        let h = spec_relocation_head_at(s, c);
        if h.block_size == 0 || h.block_size % 4 != 0 || h.block_size < 8 {
            None
        } else if c + h.block_size > s.len() {
            Some(Err(Error::InsufficientBuffer))
        } else {
            Some(Ok((h, s.subrange(c + 8, c + h.block_size))))
        }
    }
}

/// The table cursor after one step.
pub open spec fn spec_reloc_table_step_cursor(s: Seq<u8>, c: int) -> int {
    if c + 8 > s.len() {
        c
    } else if c % 4 != 0 {
        c
    } else {
        let h = spec_relocation_head_at(s, c);
        if h.block_size == 0 || h.block_size % 4 != 0 || h.block_size < 8 {
            c + 8
        } else if c + h.block_size > s.len() {
            c + 8
        } else {
            c + h.block_size
        }
    }
}

/// Iterator over the relocation table of an image.
pub struct RelocationTable<'a> {
    data: ByteReader<'a>,
}

impl<'a> RelocationTable<'a> {
    /// The reader over the directory's bytes.
    pub closed spec fn spec_data(self) -> ByteReader<'a> {
        self.data
    }

    /// Yields the next relocation block: `None` once no further header can
    /// be read or a header terminates the stream (a `block_size` of zero,
    /// not a multiple of four, or smaller than a header).
    pub fn next(&mut self) -> (r: Option<Result<RelocationBlock<'a>, Error>>)
        ensures
            final(self).spec_data().buf() == old(self).spec_data().buf(),
            final(self).spec_data().has_base() == old(self).spec_data().has_base(),
            final(self).spec_data().base() == old(self).spec_data().base(),
            final(self).spec_data().cursor() == spec_reloc_table_step_cursor(
                old(self).spec_data().buf(),
                old(self).spec_data().cursor(),
            ),
            match spec_reloc_table_step(old(self).spec_data().buf(), old(self).spec_data().cursor()) {
                None => r is None,
                Some(Err(e)) => r is Some && r->Some_0 is Err && r->Some_0->Err_0 == e,
                Some(Ok((h, body))) => {
                    &&& r is Some
                    &&& r->Some_0 is Ok
                    &&& (r->Some_0->Ok_0).spec_head() == h
                    &&& (r->Some_0->Ok_0).spec_data().buf() == body
                    &&& (r->Some_0->Ok_0).spec_data().cursor() == 0
                    &&& !(r->Some_0->Ok_0).spec_data().has_base()
                },
            },
    {
        match self.data.read::<RelocationHead>() {
            Ok(head) => {
                if head.block_size == 0 || head.block_size % 4 != 0 || head.block_size < 8 {
                    return None;
                }
                let body_len = (head.block_size - 8) as usize;
                match self.data.sub_slice(body_len) {
                    Ok(body) => {
                        self.data.skip(SkipPos::Cur(body_len));
                        Some(Ok(RelocationBlock::new(body, &head)))
                    },
                    Err(e) => Some(Err(e)),
                }
            },
            Err(Error::InsufficientBuffer) => None,
            Err(e) => Some(Err(e)),
        }
    }
}

impl<'a> DataDirectoryTable<'a> for RelocationTable<'a> {
    open spec fn inited(self, bytes: Seq<u8>, dir: DataDirectory) -> bool {
        &&& self.spec_data().buf() == bytes
        &&& self.spec_data().cursor() == 0
        &&& !self.spec_data().has_base()
    }

    fn new(bytes: &'a [u8], dir: &'a DataDirectory) -> Self {
        Self { data: ByteReader::new(bytes) }
    }

    fn typ() -> DataDirectoryType {
        DataDirectoryType::RelocationTable
    }
}

/// What the relocation-table iterator yields is a function of its window
/// and cursor alone: iterating the directory twice on the same view
/// produces identical block sequences, step by step.
pub proof fn lemma_reloc_iteration_deterministic(s1: Seq<u8>, c1: int, s2: Seq<u8>, c2: int)
    requires
        s1 == s2,
        c1 == c2,
    ensures
        spec_reloc_table_step(s1, c1) == spec_reloc_table_step(s2, c2),
        spec_reloc_table_step_cursor(s1, c1) == spec_reloc_table_step_cursor(s2, c2),
        spec_block_step_item(s1, c1) == spec_block_step_item(s2, c2),
        spec_block_step_cursor(s1, c1) == spec_block_step_cursor(s2, c2),
{
}

/// Every block the table yields carries exactly `block_size - 8` bytes of
/// entries, and its `block_size` is a positive multiple of four, at least a
/// header long.
pub proof fn lemma_reloc_block_shape(s: Seq<u8>, c: int)
    requires
        0 <= c,
        spec_reloc_table_step(s, c) is Some,
        spec_reloc_table_step(s, c)->Some_0 is Ok,
    ensures
        ({
            let (h, body) = spec_reloc_table_step(s, c)->Some_0->Ok_0;
            &&& body.len() == h.block_size - 8
            &&& h.block_size % 4 == 0
            &&& 8 <= h.block_size
        }),
{
    let h = spec_relocation_head_at(s, c);
    assert(c + 8 <= s.len());
    assert(c % 4 == 0);
    assert(!(h.block_size == 0 || h.block_size % 4 != 0 || h.block_size < 8));
    assert(c + h.block_size <= s.len());
    assert(spec_reloc_table_step(s, c)->Some_0->Ok_0 == (
        h,
        s.subrange(c + 8, c + h.block_size),
    ));
    assert(s.subrange(c + 8, c + h.block_size).len() == h.block_size - 8);
}

} // verus!
