//! The export table: the export directory and its three parallel arrays.

use vstd::prelude::*;
use vstd::string::StringSliceAdditionalSpecFns;

use crate::dir::{DataDirectory, DataDirectoryTable, DataDirectoryType};
use crate::error::Error;
use crate::mem::{
    c_str_decodable, spec_first_nul_at, str_from_bytes, u16_at, u32_at, ByteReader, FromBytes,
    SkipPos,
};

verus! {

/// The value of a single export entry.
#[derive(Clone, Copy, Debug, PartialEq, Eq)]
pub enum ExportValue<'a> {
    /// Normal in-module export: the RVA of the exported item.
    Rva(u32),
    /// Forwarded export: the `"Module.Symbol"` string the loader resolves
    /// in another module.
    Forward(&'a str),
}

/// Export table entry.
#[derive(Clone, Copy, Debug)]
pub struct Export<'a> {
    /// Value of the export.
    pub value: ExportValue<'a>,
    /// Biased ordinal of the export.
    pub ordinal: u16,
    /// Name of the export, for the entries the name pointer table covers.
    pub name: Option<&'a str>,
}

/// The export directory table at the head of the export directory.
#[derive(Clone, Copy, Debug)]
pub struct ExportDirectoryTable {
    pub characteristics: u32,
    pub time_date_stamp: u32,
    pub major_version: u16,
    pub minor_version: u16,
    pub name_rva: u32,
    pub ordinal_base: u32,
    pub num_of_funcs: u32,
    pub num_of_names: u32,
    pub function_rva: u32,
    pub names_rva: u32,
    pub ordinals_rva: u32,
}

/// The export directory table whose forty on-disk bytes sit at
/// `[p, p + 40)` of `s`.
pub open spec fn spec_edt_at(s: Seq<u8>, p: int) -> ExportDirectoryTable {
    ExportDirectoryTable {
        characteristics: u32_at(s, p),
        time_date_stamp: u32_at(s, p + 4),
        major_version: u16_at(s, p + 8),
        minor_version: u16_at(s, p + 10),
        name_rva: u32_at(s, p + 12),
        ordinal_base: u32_at(s, p + 16),
        num_of_funcs: u32_at(s, p + 20),
        num_of_names: u32_at(s, p + 24),
        function_rva: u32_at(s, p + 28),
        names_rva: u32_at(s, p + 32),
        ordinals_rva: u32_at(s, p + 36),
    }
}

/// An export directory table carries zeroed reserved characteristics, at
/// least as many functions as names, and name and ordinal tables that are
/// either both present or both absent.
pub open spec fn spec_edt_valid(t: ExportDirectoryTable) -> bool {
    &&& t.characteristics == 0
    &&& t.num_of_funcs >= t.num_of_names
    &&& (t.names_rva == 0 <==> t.ordinals_rva == 0)
}

impl ExportDirectoryTable {
    /// Returns the table itself when it passes validation, else
    /// `Malformed`.
    pub fn validate(&self) -> (r: Result<&Self, Error>)
        ensures
            r is Ok <==> spec_edt_valid(*self),
            r is Ok ==> r->Ok_0 == self,
            r is Err ==> r->Err_0 is Malformed,
    {
        if self.characteristics != 0 {
            return Error::make_malformed(
                "export directory has a non-zero reserved field 'characteristics'".to_owned(),
            );
        }
        if self.num_of_funcs < self.num_of_names {
            return Error::make_malformed(
                "export directory has an invalid number of functions or names".to_owned(),
            );
        }
        if (self.names_rva == 0 && self.ordinals_rva != 0) || (self.names_rva != 0
            && self.ordinals_rva == 0) {
            return Error::make_malformed(
                "export directory has an invalid rva to the name or ordinal table".to_owned(),
            );
        }
        Ok(self)
    }
}

impl FromBytes for ExportDirectoryTable {
    open spec fn spec_size() -> int {
        40
    }

    open spec fn spec_align() -> int {
        4
    }

    open spec fn decodes_from(self, s: Seq<u8>, p: int) -> bool {
        self == spec_edt_at(s, p)
    }

    fn exec_size() -> usize {
        40
    }

    fn exec_align() -> usize {
        4
    }

    fn decode_at(bytes: &[u8], p: usize) -> Self {
        let n = bytes.len();
        ExportDirectoryTable {
            characteristics: crate::mem::read_u32_le(bytes, p),
            time_date_stamp: crate::mem::read_u32_le(bytes, p + 4),
            major_version: crate::mem::read_u16_le(bytes, p + 8),
            minor_version: crate::mem::read_u16_le(bytes, p + 10),
            name_rva: crate::mem::read_u32_le(bytes, p + 12),
            ordinal_base: crate::mem::read_u32_le(bytes, p + 16),
            num_of_funcs: crate::mem::read_u32_le(bytes, p + 20),
            num_of_names: crate::mem::read_u32_le(bytes, p + 24),
            function_rva: crate::mem::read_u32_le(bytes, p + 28),
            names_rva: crate::mem::read_u32_le(bytes, p + 32),
            ordinals_rva: crate::mem::read_u32_le(bytes, p + 36),
        }
    }
}

/// Iterator over the export table.
pub struct ExportTable<'a> {
    data: ByteReader<'a>,
    dir: DataDirectory,
    export_table: Option<ExportDirectoryTable>,
    index: (u32, usize),
}

impl<'a> ExportTable<'a> {
    /// The reader over the export directory's bytes.
    pub closed spec fn spec_data(self) -> ByteReader<'a> {
        self.data
    }

    /// The directory descriptor the table was resolved from.
    pub closed spec fn spec_dir(self) -> DataDirectory {
        self.dir
    }

    /// The export directory table, once it has been parsed.
    pub closed spec fn spec_etable(self) -> Option<ExportDirectoryTable> {
        self.export_table
    }

    /// The pair of cursors: the next slot of the export address table, and
    /// the next slot of the name pointer and ordinal tables.
    pub closed spec fn spec_index(self) -> (u32, usize) {
        self.index
    }

    /// Whether a call that needs the export directory table succeeds from
    /// this state: the table is cached already, or it can be read at the
    /// cursor and passes validation.
    pub open spec fn spec_edt_ready(self) -> bool {
        ||| self.spec_etable() is Some
        ||| {
            let s = self.spec_data().buf();
            let c = self.spec_data().cursor();
            &&& c + 40 <= s.len()
            &&& c % 4 == 0
            &&& spec_edt_valid(spec_edt_at(s, c))
        }
    }

    /// The export directory table such a call returns.
    pub open spec fn spec_edt_value(self) -> ExportDirectoryTable {
        if self.spec_etable() is Some {
            self.spec_etable()->Some_0
        } else {
            spec_edt_at(self.spec_data().buf(), self.spec_data().cursor())
        }
    }

    /// The cursor after such a call: unchanged when the table was cached or
    /// cannot be read, past the table on a validation failure, and on the
    /// export address table on success.
    pub open spec fn spec_edt_fetch_cursor(self) -> int {
        let s = self.spec_data().buf();
        let c = self.spec_data().cursor();
        let b = self.spec_data().base();
        if self.spec_etable() is Some {
            c
        } else if c + 40 > s.len() || c % 4 != 0 {
            c
        } else if !spec_edt_valid(spec_edt_at(s, c)) {
            c + 40
        } else {
            let frva = spec_edt_at(s, c).function_rva as int;
            if b <= frva && frva - b <= s.len() {
                frva - b
            } else {
                s.len() as int
            }
        }
    }

    /// The cached table after such a call.
    pub open spec fn spec_edt_fetch_etable(self) -> Option<ExportDirectoryTable> {
        if self.spec_etable() is Some {
            self.spec_etable()
        } else if self.spec_edt_ready() {
            Some(self.spec_edt_value())
        } else {
            None
        }
    }

    /// The error kind such a call reports when it fails.
    pub open spec fn spec_edt_fetch_err_ok(self, e: Error) -> bool {
        let s = self.spec_data().buf();
        let c = self.spec_data().cursor();
        if c + 40 > s.len() {
            e is InsufficientBuffer
        } else if c % 4 != 0 {
            e is Misaligned
        } else {
            e is Malformed
        }
    }

    /// Parses and caches the export directory table on the first call;
    /// returns the cached table afterwards. On success the cursor stands on
    /// the first slot of the export address table.
    pub fn export_table(&mut self) -> (r: Result<ExportDirectoryTable, Error>)
        ensures
            final(self).spec_data().buf() == old(self).spec_data().buf(),
            final(self).spec_data().has_base() == old(self).spec_data().has_base(),
            final(self).spec_data().base() == old(self).spec_data().base(),
            final(self).spec_dir() == old(self).spec_dir(),
            final(self).spec_index() == old(self).spec_index(),
            final(self).spec_data().cursor() == old(self).spec_edt_fetch_cursor(),
            final(self).spec_etable() == old(self).spec_edt_fetch_etable(),
            r is Ok <==> old(self).spec_edt_ready(),
            r is Ok ==> r->Ok_0 == old(self).spec_edt_value(),
            r is Err ==> old(self).spec_etable() is None && old(self).spec_edt_fetch_err_ok(
                r->Err_0,
            ),
    {
        match self.export_table {
            Some(t) => Ok(t),
            None => {
                let etable = match self.data.read::<ExportDirectoryTable>() {
                    Ok(t) => t,
                    Err(e) => {
                        return Err(e);
                    },
                };
                match etable.validate() {
                    Ok(_) => {},
                    Err(e) => {
                        return Err(e);
                    },
                }
                self.data.skip(SkipPos::Rel(etable.function_rva as usize));
                self.export_table = Some(etable);
                Ok(etable)
            },
        }
    }

    /// Returns the `time_date_stamp` field of the export directory table,
    /// parsing the table first when needed.
    pub fn time_date_stamp(&mut self) -> (r: Result<u32, Error>)
        ensures
            final(self).spec_data().buf() == old(self).spec_data().buf(),
            final(self).spec_data().has_base() == old(self).spec_data().has_base(),
            final(self).spec_data().base() == old(self).spec_data().base(),
            final(self).spec_dir() == old(self).spec_dir(),
            final(self).spec_index() == old(self).spec_index(),
            final(self).spec_data().cursor() == old(self).spec_edt_fetch_cursor(),
            final(self).spec_etable() == old(self).spec_edt_fetch_etable(),
            r is Ok <==> old(self).spec_edt_ready(),
            r is Ok ==> r->Ok_0 == old(self).spec_edt_value().time_date_stamp,
            r is Err ==> old(self).spec_edt_fetch_err_ok(r->Err_0),
    {
        match self.export_table() {
            Ok(t) => Ok(t.time_date_stamp),
            Err(e) => Err(e),
        }
    }

    /// Returns the `num_of_funcs` field of the export directory table,
    /// parsing the table first when needed.
    pub fn func_count(&mut self) -> (r: Result<u32, Error>)
        ensures
            final(self).spec_data().buf() == old(self).spec_data().buf(),
            final(self).spec_data().has_base() == old(self).spec_data().has_base(),
            final(self).spec_data().base() == old(self).spec_data().base(),
            final(self).spec_dir() == old(self).spec_dir(),
            final(self).spec_index() == old(self).spec_index(),
            final(self).spec_data().cursor() == old(self).spec_edt_fetch_cursor(),
            final(self).spec_etable() == old(self).spec_edt_fetch_etable(),
            r is Ok <==> old(self).spec_edt_ready(),
            r is Ok ==> r->Ok_0 == old(self).spec_edt_value().num_of_funcs,
            r is Err ==> old(self).spec_edt_fetch_err_ok(r->Err_0),
    {
        match self.export_table() {
            Ok(t) => Ok(t.num_of_funcs),
            Err(e) => Err(e),
        }
    }

    /// Returns the `num_of_names` field of the export directory table,
    /// parsing the table first when needed.
    pub fn name_count(&mut self) -> (r: Result<u32, Error>)
        ensures
            final(self).spec_data().buf() == old(self).spec_data().buf(),
            final(self).spec_data().has_base() == old(self).spec_data().has_base(),
            final(self).spec_data().base() == old(self).spec_data().base(),
            final(self).spec_dir() == old(self).spec_dir(),
            final(self).spec_index() == old(self).spec_index(),
            final(self).spec_data().cursor() == old(self).spec_edt_fetch_cursor(),
            final(self).spec_etable() == old(self).spec_edt_fetch_etable(),
            r is Ok <==> old(self).spec_edt_ready(),
            r is Ok ==> r->Ok_0 == old(self).spec_edt_value().num_of_names,
            r is Err ==> old(self).spec_edt_fetch_err_ok(r->Err_0),
    {
        match self.export_table() {
            Ok(t) => Ok(t.num_of_names),
            Err(e) => Err(e),
        }
    }

    /// Yields the next export, in export-address-table order: its value (an
    /// in-module RVA, or the forward string when the RVA falls inside the
    /// export directory), its biased ordinal, and its name when the ordinal
    /// table marks this slot as named. Ends once `num_of_funcs` entries
    /// were yielded.
    pub fn next(&mut self) -> (r: Option<Result<Export<'a>, Error>>)
        ensures
            final(self).spec_data().buf() == old(self).spec_data().buf(),
            final(self).spec_data().has_base() == old(self).spec_data().has_base(),
            final(self).spec_data().base() == old(self).spec_data().base(),
            final(self).spec_dir() == old(self).spec_dir(),
            !old(self).spec_edt_ready() ==> {
                &&& r is Some
                &&& r->Some_0 is Err
                &&& old(self).spec_edt_fetch_err_ok(r->Some_0->Err_0)
                &&& final(self).spec_data().cursor() == old(self).spec_edt_fetch_cursor()
                &&& final(self).spec_etable() == old(self).spec_edt_fetch_etable()
                &&& final(self).spec_index() == old(self).spec_index()
            },
            old(self).spec_edt_ready() ==> ({
                let et = old(self).spec_edt_value();
                let s = old(self).spec_data().buf();
                let b = old(self).spec_data().base();
                let c0 = old(self).spec_edt_fetch_cursor();
                let i0 = old(self).spec_index().0;
                let i1 = old(self).spec_index().1;
                &&& final(self).spec_etable() == Some(et)
                &&& if et.num_of_funcs <= i0 {
                    &&& r is None
                    &&& final(self).spec_data().cursor() == c0
                    &&& final(self).spec_index() == old(self).spec_index()
                } else if c0 + 4 > s.len() || c0 % 4 != 0 {
                    &&& r is Some
                    &&& r->Some_0 is Err
                    &&& (if c0 + 4 > s.len() {
                        r->Some_0->Err_0 is InsufficientBuffer
                    } else {
                        r->Some_0->Err_0 is Misaligned
                    })
                    &&& final(self).spec_data().cursor() == c0
                    &&& final(self).spec_index() == old(self).spec_index()
                } else {
                    let rva = u32_at(s, c0);
                    let opos = et.ordinals_rva + 2 * i1;
                    &&& final(self).spec_data().cursor() == c0 + 4
                    &&& if opos > usize::MAX || opos < b || opos - b + 2 > s.len() {
                        &&& r is Some
                        &&& r->Some_0 is Err
                        &&& r->Some_0->Err_0 is InsufficientBuffer
                        &&& final(self).spec_index() == old(self).spec_index()
                    } else if (opos - b) % 2 != 0 {
                        &&& r is Some
                        &&& r->Some_0 is Err
                        &&& r->Some_0->Err_0 is Misaligned
                        &&& final(self).spec_index() == old(self).spec_index()
                    } else {
                        let named = i0 == u16_at(s, opos - b) as u32;
                        let npos = et.names_rva + 4 * i1;
                        spec_export_name_phase(
                            *old(self),
                            *final(self),
                            r,
                            et,
                            rva,
                            named,
                            npos,
                        )
                    }
                }
            }),
    {
        let etable = match self.export_table() {
            Ok(t) => t,
            Err(e) => {
                return Some(Err(e));
            },
        };
        if etable.num_of_funcs <= self.index.0 {
            return None;
        }
        let rva = match self.data.read::<u32>() {
            Ok(v) => v,
            Err(e) => {
                return Some(Err(e));
            },
        };
        let m2 = match self.index.1.checked_mul(2) {
            Some(v) => v,
            None => {
                return Some(Err(Error::InsufficientBuffer));
            },
        };
        let opos = match (etable.ordinals_rva as usize).checked_add(m2) {
            Some(v) => v,
            None => {
                return Some(Err(Error::InsufficientBuffer));
            },
        };
        let ordinal = match self.data.read_at::<u16>(opos) {
            Ok(o) => o,
            Err(e) => {
                return Some(Err(e));
            },
        };
        let name = if self.index.0 == ordinal as u32 {
            let m4 = match self.index.1.checked_mul(4) {
                Some(v) => v,
                None => {
                    return Some(Err(Error::InsufficientBuffer));
                },
            };
            let npos = match (etable.names_rva as usize).checked_add(m4) {
                Some(v) => v,
                None => {
                    return Some(Err(Error::InsufficientBuffer));
                },
            };
            let name_rva = match self.data.read_at::<u32>(npos) {
                Ok(v) => v,
                Err(e) => {
                    return Some(Err(e));
                },
            };
            let tail = match self.data.bytes_at(name_rva as usize) {
                Ok(t) => t,
                Err(e) => {
                    return Some(Err(e));
                },
            };
            match str_from_bytes(tail) {
                Ok(nm) => Some(nm),
                Err(e) => {
                    return Some(Err(e));
                },
            }
        } else {
            None
        };
        let ord16: u16 = (((etable.ordinal_base as u64) + (self.index.0 as u64)) % 0x10000) as u16;
        let new_i1 = if name.is_some() {
            match self.index.1.checked_add(1) {
                Some(v) => v,
                None => {
                    return Some(Err(Error::InsufficientBuffer));
                },
            }
        } else {
            self.index.1
        };
        self.index.0 = self.index.0 + 1;
        self.index.1 = new_i1;
        let value = if self.dir.contains_addr(rva) {
            let tail = match self.data.bytes_at(rva as usize) {
                Ok(t) => t,
                Err(e) => {
                    return Some(Err(e));
                },
            };
            match str_from_bytes(tail) {
                Ok(sym) => ExportValue::Forward(sym),
                Err(e) => {
                    return Some(Err(e));
                },
            }
        } else {
            ExportValue::Rva(rva)
        };
        Some(Ok(Export { value, ordinal: ord16, name }))
    }
}

/// The name-resolution and value-resolution outcome of one export step:
/// `pre` is the state before the call with the directory table already
/// fetched, `fin` the state after it, `named` whether the ordinal table
/// marks the slot as named, and `npos` the name-pointer slot address.
pub open spec fn spec_export_name_phase<'a>(
    pre: ExportTable<'a>,
    fin: ExportTable<'a>,
    r: Option<Result<Export<'a>, Error>>,
    et: ExportDirectoryTable,
    rva: u32,
    named: bool,
    npos: int,
) -> bool {
    let s = pre.spec_data().buf();
    let b = pre.spec_data().base();
    let i0 = pre.spec_index().0;
    let i1 = pre.spec_index().1;
    if named && (npos > usize::MAX || npos < b || npos - b + 4 > s.len()) {
        &&& r is Some
        &&& r->Some_0 is Err
        &&& r->Some_0->Err_0 is InsufficientBuffer
        &&& fin.spec_index() == pre.spec_index()
    } else if named && (npos - b) % 4 != 0 {
        &&& r is Some
        &&& r->Some_0 is Err
        &&& r->Some_0->Err_0 is Misaligned
        &&& fin.spec_index() == pre.spec_index()
    } else {
        let name_rva = u32_at(s, npos - b) as int;
        if named && (name_rva < b || name_rva - b > s.len()) {
            &&& r is Some
            &&& r->Some_0 is Err
            &&& r->Some_0->Err_0 is InsufficientBuffer
            &&& fin.spec_index() == pre.spec_index()
        } else {
            let ntail = s.subrange(name_rva - b, s.len() as int);
            if named && !c_str_decodable(ntail) {
                &&& r is Some
                &&& r->Some_0 is Err
                &&& r->Some_0->Err_0 is Malformed
                &&& fin.spec_index() == pre.spec_index()
            } else if named && i1 == usize::MAX {
                &&& r is Some
                &&& r->Some_0 is Err
                &&& r->Some_0->Err_0 is InsufficientBuffer
                &&& fin.spec_index() == pre.spec_index()
            } else {
                let fwd = pre.spec_dir().spec_contains_addr(rva as int);
                &&& fin.spec_index().0 == i0 + 1
                &&& fin.spec_index().1 == if named {
                    i1 + 1
                } else {
                    i1 as int
                }
                &&& if fwd && (rva < b || rva - b > s.len()) {
                    &&& r is Some
                    &&& r->Some_0 is Err
                    &&& r->Some_0->Err_0 is InsufficientBuffer
                } else {
                    let ftail = s.subrange(rva - b, s.len() as int);
                    if fwd && !c_str_decodable(ftail) {
                        &&& r is Some
                        &&& r->Some_0 is Err
                        &&& r->Some_0->Err_0 is Malformed
                    } else {
                        &&& r is Some
                        &&& r->Some_0 is Ok
                        &&& {
                            let ex = r->Some_0->Ok_0;
                            &&& ex.ordinal == ((et.ordinal_base + i0) % 0x10000) as u16
                            &&& i0 < et.num_of_funcs
                            &&& (ex.value is Forward <==> fwd)
                            &&& (ex.value is Rva ==> ex.value->Rva_0 == rva)
                            &&& (ex.value is Forward ==> (ex.value->Forward_0).spec_bytes()
                                == ftail.subrange(0, spec_first_nul_at(ftail)))
                            &&& (ex.name is Some <==> named)
                            &&& (ex.name is Some ==> (ex.name->Some_0).spec_bytes()
                                == ntail.subrange(0, spec_first_nul_at(ntail)))
                        }
                    }
                }
            }
        }
    }
}

/// Every export the iterator yields carries the biased ordinal
/// `ordinal_base + eat_index`, truncated to sixteen bits, with an
/// `eat_index` inside `[0, num_of_funcs)`; and it is forwarded exactly when
/// its address-table RVA falls inside the export directory's range.
pub proof fn lemma_export_step_shape<'a>(
    pre: ExportTable<'a>,
    post: ExportTable<'a>,
    r: Option<Result<Export<'a>, Error>>,
    et: ExportDirectoryTable,
    rva: u32,
    named: bool,
    npos: int,
)
    requires
        spec_export_name_phase(pre, post, r, et, rva, named, npos),
        r is Some,
        r->Some_0 is Ok,
    ensures
        ({
            let ex = r->Some_0->Ok_0;
            &&& ex.ordinal == ((et.ordinal_base + pre.spec_index().0) % 0x10000) as u16
            &&& 0 <= pre.spec_index().0 < et.num_of_funcs
            &&& (ex.value is Forward <==> pre.spec_dir().spec_contains_addr(rva as int))
        }),
{
}

impl<'a> DataDirectoryTable<'a> for ExportTable<'a> {
    open spec fn inited(self, bytes: Seq<u8>, dir: DataDirectory) -> bool {
        &&& self.spec_data().buf() == bytes
        &&& self.spec_data().cursor() == 0
        &&& self.spec_data().has_base()
        &&& self.spec_data().base() == dir.addr as int
        &&& self.spec_dir() == dir
        &&& self.spec_etable() is None
        &&& self.spec_index() == (0u32, 0usize)
    }

    fn new(bytes: &'a [u8], dir: &'a DataDirectory) -> Self {
        Self {
            data: ByteReader::new_with_rel(bytes, dir.addr as usize),
            dir: *dir,
            export_table: None,
            index: (0, 0),
        }
    }

    fn typ() -> DataDirectoryType {
        DataDirectoryType::ExportTable
    }
}

} // verus!
