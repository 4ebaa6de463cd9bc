//! The import table: per-module import lookup tables of names and
//! ordinals.

use vstd::prelude::*;
use vstd::string::StringSliceAdditionalSpecFns;

use crate::dir::{DataDirectory, DataDirectoryTable, DataDirectoryType};
use crate::error::Error;
use crate::mem::{
    c_str_decodable, spec_first_nul_at, str_from_bytes, u16_at, u32_at, u64_at, ByteReader,
    FromBytes, SkipPos,
};

verus! {

/// Import entry of a module: a hint and symbol name, or a bare ordinal.
#[derive(Clone, Copy, Debug, PartialEq, Eq)]
pub enum Import<'a> {
    /// Hint and name of an imported symbol.
    Name(u16, &'a str),
    /// Ordinal value.
    Ordinal(u16),
}

/// A row of the import directory table, describing one imported module.
#[derive(Clone, Copy, Debug)]
pub struct ImportDirectoryEntry {
    pub lookup_rva: u32,
    pub time_date_stamp: u32,
    pub forwarder_chain: u32,
    pub name_rva: u32,
    pub address_rva: u32,
}

/// The directory entry whose twenty on-disk bytes sit at `[p, p + 20)` of
/// `s`.
pub open spec fn spec_import_dir_at(s: Seq<u8>, p: int) -> ImportDirectoryEntry {
    ImportDirectoryEntry {
        lookup_rva: u32_at(s, p),
        time_date_stamp: u32_at(s, p + 4),
        forwarder_chain: u32_at(s, p + 8),
        name_rva: u32_at(s, p + 12),
        address_rva: u32_at(s, p + 16),
    }
}

impl ImportDirectoryEntry {
    /// Whether every field is zero: the sentinel that terminates the import
    /// directory.
    pub open spec fn spec_is_zero(self) -> bool {
        &&& self.lookup_rva == 0
        &&& self.time_date_stamp == 0
        &&& self.forwarder_chain == 0
        &&& self.name_rva == 0
        &&& self.address_rva == 0
    }
}

impl FromBytes for ImportDirectoryEntry {
    open spec fn spec_size() -> int {
        20
    }

    open spec fn spec_align() -> int {
        4
    }

    open spec fn decodes_from(self, s: Seq<u8>, p: int) -> bool {
        self == spec_import_dir_at(s, p)
    }

    fn exec_size() -> usize {
        20
    }

    fn exec_align() -> usize {
        4
    }

    fn decode_at(bytes: &[u8], p: usize) -> Self {
        let n = bytes.len();
        ImportDirectoryEntry {
            lookup_rva: crate::mem::read_u32_le(bytes, p),
            time_date_stamp: crate::mem::read_u32_le(bytes, p + 4),
            forwarder_chain: crate::mem::read_u32_le(bytes, p + 8),
            name_rva: crate::mem::read_u32_le(bytes, p + 12),
            address_rva: crate::mem::read_u32_le(bytes, p + 16),
        }
    }
}

/// A 64-bit import lookup table entry: bit 63 selects import by ordinal,
/// the low bits carry the ordinal or the RVA of a hint/name record.
#[derive(Clone, Copy, Debug)]
pub struct ImportEntry(u64);

impl ImportEntry {
    /// The entry's raw 64-bit value.
    pub closed spec fn spec_raw(self) -> u64 {
        self.0
    }

    /// The entry's low 32 bits: an ordinal or the RVA of a hint/name
    /// record.
    pub open spec fn spec_value(self) -> u32 {
        (self.spec_raw() & 0x00000000FFFFFFFF) as u32
    }

    /// Whether bit 63 selects import by ordinal.
    pub open spec fn spec_is_ordinal(self) -> bool {
        (self.spec_raw() >> 63) == 1
    }

    /// Returns the entry's low 32 bits.
    pub fn value(&self) -> (r: u32)
        ensures
            r == self.spec_value(),
    {
        (self.0 & 0x00000000FFFFFFFF) as u32
    }

    /// Checks if bit 63 selects import by ordinal.
    pub fn is_ordinal(&self) -> (r: bool)
        ensures
            r == self.spec_is_ordinal(),
    {
        (self.0 >> 63) == 1
    }
}

impl FromBytes for ImportEntry {
    open spec fn spec_size() -> int {
        8
    }

    open spec fn spec_align() -> int {
        8
    }

    open spec fn decodes_from(self, s: Seq<u8>, p: int) -> bool {
        self.spec_raw() == u64_at(s, p)
    }

    fn exec_size() -> usize {
        8
    }

    fn exec_align() -> usize {
        8
    }

    fn decode_at(bytes: &[u8], p: usize) -> Self {
        ImportEntry(crate::mem::read_u64_le(bytes, p))
    }
}

/// Iterator over the import entries of a single module.
pub struct ImportModule<'a> {
    data: ByteReader<'a>,
    dir: ImportDirectoryEntry,
}

impl<'a> ImportModule<'a> {
    /// The directory entry this module was announced by.
    pub closed spec fn spec_dir(self) -> ImportDirectoryEntry {
        self.dir
    }

    /// The reader over the import window, cursor on the module's lookup
    /// table.
    pub closed spec fn spec_data(self) -> ByteReader<'a> {
        self.data
    }

    /// Creates a module iterator over `data`, the import window whose byte
    /// zero corresponds to the RVA `data_rva`, positioned on the lookup
    /// table that `dir` names.
    pub fn new(data: &'a [u8], data_rva: usize, dir: ImportDirectoryEntry) -> (r: Self)
        ensures
            r.spec_dir() == dir,
            r.spec_data().buf() == data@,
            r.spec_data().has_base(),
            r.spec_data().base() == data_rva as int,
            r.spec_data().cursor() == if data_rva <= dir.lookup_rva && dir.lookup_rva as int
                - data_rva <= data@.len() {
                dir.lookup_rva - data_rva
            } else {
                data@.len() as int
            },
    {
        let mut rd = ByteReader::new_with_rel(data, data_rva);
        rd.skip(SkipPos::Rel(dir.lookup_rva as usize));
        Self { data: rd, dir }
    }

    /// Returns the `time_date_stamp` field of the directory entry.
    pub fn time_date_stamp(&self) -> (r: u32)
        ensures
            r == self.spec_dir().time_date_stamp,
    {
        self.dir.time_date_stamp
    }

    /// Returns the `forwarder_chain` field of the directory entry.
    pub fn forwarder(&self) -> (r: u32)
        ensures
            r == self.spec_dir().forwarder_chain,
    {
        self.dir.forwarder_chain
    }

    /// Returns the `address_rva` field of the directory entry.
    pub fn address_rva(&self) -> (r: u32)
        ensures
            r == self.spec_dir().address_rva,
    {
        self.dir.address_rva
    }

    /// Resolves the module's name: the NUL-terminated UTF-8 string at the
    /// directory entry's `name_rva`.
    pub fn name(&self) -> (r: Result<&'a str, Error>)
        ensures
            ({
                let s = self.spec_data().buf();
                let b = self.spec_data().base();
                let nr = self.spec_dir().name_rva as int;
                if b <= nr && nr - b <= s.len() {
                    let tail = s.subrange(nr - b, s.len() as int);
                    match r {
                        Ok(t) => c_str_decodable(tail) && t.spec_bytes() == tail.subrange(
                            0,
                            spec_first_nul_at(tail),
                        ),
                        Err(e) => !c_str_decodable(tail) && e is Malformed,
                    }
                } else {
                    r is Err && r->Err_0 is InsufficientBuffer
                }
            }),
    {
        match self.data.bytes_at(self.dir.name_rva as usize) {
            Ok(tail) => str_from_bytes(tail),
            Err(e) => Err(e),
        }
    }

    /// Yields the next import of the module: `None` on the all-zero entry
    /// that terminates the lookup table, an ordinal for an entry with bit
    /// 63 set, otherwise the hint and name the entry points at.
    pub fn next(&mut self) -> (r: Option<Result<Import<'a>, Error>>)
        ensures
            final(self).spec_dir() == old(self).spec_dir(),
            final(self).spec_data().buf() == old(self).spec_data().buf(),
            final(self).spec_data().has_base() == old(self).spec_data().has_base(),
            final(self).spec_data().base() == old(self).spec_data().base(),
            final(self).spec_data().cursor() == ({
                let s = old(self).spec_data().buf();
                let c = old(self).spec_data().cursor();
                if c + 8 <= s.len() && c % 8 == 0 {
                    c + 8
                } else {
                    c
                }
            }),
            ({
                let s = old(self).spec_data().buf();
                let c = old(self).spec_data().cursor();
                let b = old(self).spec_data().base();
                if c + 8 > s.len() {
                    r == Some(Result::<Import<'a>, Error>::Err(Error::InsufficientBuffer))
                } else if c % 8 != 0 {
                    r == Some(Result::<Import<'a>, Error>::Err(Error::Misaligned))
                } else {
                    let e = u64_at(s, c);
                    if e == 0 {
                        r is None
                    } else if (e >> 63) == 1 {
                        r == Some(Result::<Import<'a>, Error>::Ok(Import::Ordinal(
                            ((e & 0x00000000FFFFFFFF) as u32) as u16,
                        )))
                    } else {
                        let v = ((e & 0x00000000FFFFFFFF) as u32) as int;
                        if v < b {
                            r == Some(Result::<Import<'a>, Error>::Err(Error::InsufficientBuffer))
                        } else if v - b + 2 > s.len() {
                            r == Some(Result::<Import<'a>, Error>::Err(Error::InsufficientBuffer))
                        } else if (v - b) % 2 != 0 {
                            r == Some(Result::<Import<'a>, Error>::Err(Error::Misaligned))
                        } else if v + 2 > usize::MAX {
                            r == Some(Result::<Import<'a>, Error>::Err(Error::InsufficientBuffer))
                        } else if v + 2 < b || v + 2 - b > s.len() {
                            r == Some(Result::<Import<'a>, Error>::Err(Error::InsufficientBuffer))
                        } else {
                            let tail = s.subrange(v + 2 - b, s.len() as int);
                            if c_str_decodable(tail) {
                                &&& r is Some
                                &&& r->Some_0 is Ok
                                &&& (r->Some_0->Ok_0) is Name
                                &&& (r->Some_0->Ok_0)->Name_0 == u16_at(s, v - b)
                                &&& ((r->Some_0->Ok_0)->Name_1).spec_bytes() == tail.subrange(
                                    0,
                                    spec_first_nul_at(tail),
                                )
                            } else {
                                r is Some && r->Some_0 is Err && r->Some_0->Err_0 is Malformed
                            }
                        }
                    }
                }
            }),
    {
        let entry = match self.data.read::<ImportEntry>() {
            Ok(e) => e,
            Err(e) => {
                return Some(Err(e));
            },
        };
        if entry.0 == 0 {
            return None;
        }
        if entry.is_ordinal() {
            return Some(Ok(Import::Ordinal(entry.value() as u16)));
        }
        let v = entry.value();
        let hint = match self.data.read_at::<u16>(v as usize) {
            Ok(h) => h,
            Err(e) => {
                return Some(Err(e));
            },
        };
        let name_pos = match (v as usize).checked_add(2) {
            Some(p) => p,
            None => {
                return Some(Err(Error::InsufficientBuffer));
            },
        };
        let tail = match self.data.bytes_at(name_pos) {
            Ok(t) => t,
            Err(e) => {
                return Some(Err(e));
            },
        };
        match str_from_bytes(tail) {
            Ok(name) => Some(Ok(Import::Name(hint, name))),
            Err(e) => Some(Err(e)),
        }
    }
}

/// What one step of the import-table iterator yields over the import
/// window `s` at cursor `c`: `None` on the all-zero sentinel record,
/// otherwise the directory entry read, or the error that reading it
/// raised.
pub open spec fn spec_import_table_step(s: Seq<u8>, c: int) -> Option<
    Result<ImportDirectoryEntry, Error>,
> {
    if c + 20 > s.len() {
        Some(Err(Error::InsufficientBuffer))
    } else if c % 4 != 0 {
        Some(Err(Error::Misaligned))
    } else {
        let d = spec_import_dir_at(s, c);
        if d.spec_is_zero() {
            None
        } else {
            Some(Ok(d))
        }
    }
}

/// The table cursor after one step.
pub open spec fn spec_import_table_step_cursor(s: Seq<u8>, c: int) -> int {
    if c + 20 > s.len() {
        c
    } else if c % 4 != 0 {
        c
    } else {
        c + 20
    }
}

/// The import-module stream ends exactly on a readable, all-zero 20-byte
/// directory record: the terminating sentinel.
pub proof fn lemma_import_sentinel(s: Seq<u8>, c: int)
    requires
        c + 20 <= s.len(),
        c % 4 == 0,
    ensures
        spec_import_table_step(s, c) is None <==> spec_import_dir_at(s, c).spec_is_zero(),
{
}

/// What the import-table iterator yields is a function of its window and
/// cursor alone: iterating the directory twice on the same view produces
/// identical module sequences, step by step.
pub proof fn lemma_import_iteration_deterministic(s1: Seq<u8>, c1: int, s2: Seq<u8>, c2: int)
    requires
        s1 == s2,
        c1 == c2,
    ensures
        spec_import_table_step(s1, c1) == spec_import_table_step(s2, c2),
        spec_import_table_step_cursor(s1, c1) == spec_import_table_step_cursor(s2, c2),
{
}

/// Iterator over the import directory table of an image.
pub struct ImportTable<'a> {
    data: ByteReader<'a>,
}

impl<'a> ImportTable<'a> {
    /// The reader over the import window.
    pub closed spec fn spec_data(self) -> ByteReader<'a> {
        self.data
    }

    /// Yields the next import module: `None` on the all-zero sentinel
    /// record; a directory that never reaches such a sentinel ends in an
    /// `InsufficientBuffer` item.
    pub fn next(&mut self) -> (r: Option<Result<ImportModule<'a>, Error>>)
        ensures
            final(self).spec_data().buf() == old(self).spec_data().buf(),
            final(self).spec_data().has_base() == old(self).spec_data().has_base(),
            final(self).spec_data().base() == old(self).spec_data().base(),
            final(self).spec_data().cursor() == spec_import_table_step_cursor(
                old(self).spec_data().buf(),
                old(self).spec_data().cursor(),
            ),
            match spec_import_table_step(old(self).spec_data().buf(), old(self).spec_data().cursor()) {
                None => r is None,
                Some(Err(e)) => r is Some && r->Some_0 is Err && r->Some_0->Err_0 == e,
                Some(Ok(d)) => {
                    &&& r is Some
                    &&& r->Some_0 is Ok
                    &&& {
                        let m = r->Some_0->Ok_0;
                        &&& m.spec_dir() == d
                        &&& m.spec_data().buf() == old(self).spec_data().buf()
                        &&& m.spec_data().has_base()
                        &&& m.spec_data().base() == old(self).spec_data().base()
                        &&& m.spec_data().cursor() == ({
                            let s = old(self).spec_data().buf();
                            let b = old(self).spec_data().base();
                            if b <= d.lookup_rva && d.lookup_rva - b <= s.len() {
                                d.lookup_rva - b
                            } else {
                                s.len() as int
                            }
                        })
                    }
                },
            },
    {
        match self.data.read::<ImportDirectoryEntry>() {
            Ok(d) => {
                if d.lookup_rva == 0 && d.time_date_stamp == 0 && d.forwarder_chain == 0
                    && d.name_rva == 0 && d.address_rva == 0 {
                    return None;
                }
                let base = match self.data.rel_pos() {
                    Some(b) => b,
                    None => 0,
                };
                Some(Ok(ImportModule::new(self.data.bytes(), base, d)))
            },
            Err(e) => Some(Err(e)),
        }
    }
}

impl<'a> DataDirectoryTable<'a> for ImportTable<'a> {
    open spec fn inited(self, bytes: Seq<u8>, dir: DataDirectory) -> bool {
        &&& self.spec_data().buf() == bytes
        &&& self.spec_data().cursor() == 0
        &&& self.spec_data().has_base()
        &&& self.spec_data().base() == dir.addr as int
    }

    fn new(bytes: &'a [u8], dir: &'a DataDirectory) -> Self {
        Self { data: ByteReader::new_with_rel(bytes, dir.addr as usize) }
    }

    fn typ() -> DataDirectoryType {
        DataDirectoryType::ImportTable
    }
}

} // verus!
