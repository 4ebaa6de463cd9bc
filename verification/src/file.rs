//! The image view: header parsing, the section table, and address lookups.

use vstd::prelude::*;
use vstd::array::array_index_get;
use vstd::string::StringSliceAdditionalSpecFns;
use vstd::utf8::valid_utf8;

use crate::dir::{
    CertificateTable, DataDirectory, DataDirectoryTable, DataDirectoryType, ExportTable,
    ImportTable, RelocationTable,
};
use crate::error::Error;
use crate::header::{
    spec_dos_valid, spec_file_header_at, spec_file_invalid_format, spec_file_valid,
    spec_nt_valid, spec_opt_header_decodes, spec_opt_valid, spec_section_header_decodes,
    spec_section_valid, DosHeader, FileFlags, NtHeader, SectionHeader,
};
use crate::mem::{u16_at, u32_at, u64_at, ByteReader, FromBytes, SkipPos};
use vstd::slice::slice_subrange;
use crate::section::Section;

verus! {

/// Address that represents a position within a [`PeView`].
#[derive(Clone, Copy, Debug)]
pub enum PeAddr {
    /// Relative virtual address.
    Rva(u32),
    /// Absolute offset within the file.
    FilePtr(u32),
}

/// The offset of the NT header, read out of the DOS header of `s`.
pub open spec fn spec_lfanew(s: Seq<u8>) -> int {
    u32_at(s, 60) as int
}

/// The bytes hold a DOS header that passes validation.
pub open spec fn spec_dos_ok(s: Seq<u8>) -> bool {
    &&& s.len() >= 64
    &&& u16_at(s, 0) == 0x5A4D
    &&& u32_at(s, 60) % 4 == 0
}

/// The NT header can be read at the DOS header's offset: it lies within the
/// bytes and at an eight-byte-aligned position.
pub open spec fn spec_nt_readable(s: Seq<u8>) -> bool {
    &&& spec_lfanew(s) + 264 <= s.len()
    &&& spec_lfanew(s) % 8 == 0
}

/// The optional header whose bytes sit at `p` passes validation, stated
/// directly over the bytes.
pub open spec fn spec_opt_valid_at(s: Seq<u8>, p: int) -> bool {
    &&& u16_at(s, p) == 0x20B
    &&& u64_at(s, p + 24) % 0x10000 == 0
    &&& u32_at(s, p + 32) >= u32_at(s, p + 36)
    &&& u32_at(s, p + 36) % 2 == 0
    &&& 512 <= u32_at(s, p + 36) <= 0x10000
    &&& (u32_at(s, p + 32) < 0x1000 ==> u32_at(s, p + 36) == u32_at(s, p + 32))
    &&& u32_at(s, p + 52) == 0
    &&& u32_at(s, p + 56) % u32_at(s, p + 32) == 0
    &&& u32_at(s, p + 60) % u32_at(s, p + 36) == 0
    &&& u32_at(s, p + 104) == 0
}

/// The NT header at the DOS header's offset passes validation, stated
/// directly over the bytes.
pub open spec fn spec_nt_at_ok(s: Seq<u8>) -> bool {
    let l = spec_lfanew(s);
    &&& u32_at(s, l) == 0x00004550
    &&& spec_file_valid(spec_file_header_at(s, l + 4))
    &&& spec_opt_valid_at(s, l + 24)
}

/// The number of section-table entries, read out of the file header of `s`.
pub open spec fn spec_num_sections(s: Seq<u8>) -> int {
    u16_at(s, spec_lfanew(s) + 6) as int
}

/// The file position of the section table: past the NT signature, the file
/// header and the optional header.
pub open spec fn spec_table_pos(s: Seq<u8>) -> int {
    spec_lfanew(s) + 24 + u16_at(s, spec_lfanew(s) + 20)
}

/// The section header whose bytes sit at `p` passes validation against the
/// optional header at `optp`, stated directly over the bytes.
pub open spec fn spec_section_valid_at(s: Seq<u8>, p: int, optp: int) -> bool {
    &&& valid_utf8(s.subrange(p, p + 8))
    &&& u32_at(s, p + 16) % u32_at(s, optp + 36) == 0
    &&& u32_at(s, p + 20) % u32_at(s, optp + 36) == 0
    &&& !(u32_at(s, p + 8) == 0 && u32_at(s, p + 16) == 0)
    &&& !(u32_at(s, p + 12) == 0 && u32_at(s, p + 20) == 0)
}

/// The raw data named by the section header at `p` lies within the image.
pub open spec fn spec_section_fits(s: Seq<u8>, p: int) -> bool {
    u32_at(s, p + 16) == 0 || u32_at(s, p + 20) + u32_at(s, p + 16) <= s.len()
}

/// The file position of the section table's `k`-th slot.
pub open spec fn spec_slot_pos(s: Seq<u8>, k: int) -> int {
    spec_table_pos(s) + 40 * k
}

/// The section-table slot at `p` can be read, passes validation, and names
/// raw data that lies within the image.
pub open spec fn spec_section_slot_ok(s: Seq<u8>, p: int) -> bool {
    &&& p + 40 <= s.len()
    &&& p % 4 == 0
    &&& spec_section_valid_at(s, p, spec_lfanew(s) + 24)
    &&& spec_section_fits(s, p)
}

/// When `parse` accepts a byte buffer: its DOS header, NT header and every
/// section-table entry can be read and pass validation, and every section's
/// raw data lies within the buffer.
pub open spec fn spec_image_wf(s: Seq<u8>) -> bool {
    &&& spec_dos_ok(s)
    &&& spec_nt_readable(s)
    &&& spec_nt_at_ok(s)
    &&& forall|k: int|
        0 <= k < spec_num_sections(s) ==> spec_section_slot_ok(s, #[trigger] spec_slot_pos(s, k))
}

/// When `parse` reports `InvalidFileFormat`: the headers can be read and
/// look plausible, but the magic numbers name a file that is not PE32+.
pub open spec fn spec_image_invalid_format(s: Seq<u8>) -> bool {
    let l = spec_lfanew(s);
    &&& spec_dos_ok(s)
    &&& spec_nt_readable(s)
    &&& u32_at(s, l) == 0x00004550
    &&& (spec_file_invalid_format(spec_file_header_at(s, l + 4)) || (spec_file_valid(
        spec_file_header_at(s, l + 4),
    ) && u16_at(s, l + 24) != 0x20B))
}

/// The optional-header validity over bytes agrees with the validity of the
/// decoded header.
proof fn lemma_opt_valid_bridge(h: crate::header::OptionalHeader, s: Seq<u8>, p: int)
    requires
        spec_opt_header_decodes(h, s, p),
    ensures
        spec_opt_valid(h) <==> spec_opt_valid_at(s, p),
{
}

/// The section-header validity over bytes agrees with the validity of the
/// decoded header against the decoded optional header.
proof fn lemma_section_valid_bridge(
    h: SectionHeader,
    opt: crate::header::OptionalHeader,
    s: Seq<u8>,
    p: int,
    optp: int,
)
    requires
        spec_section_header_decodes(h, s, p),
        spec_opt_header_decodes(opt, s, optp),
    ensures
        spec_section_valid(h, opt) <==> spec_section_valid_at(s, p, optp),
{
}

/// First index at or past `i` of a non-empty section whose range contains
/// `addr`.
pub open spec fn spec_find_section(sections: Seq<Section>, addr: PeAddr, i: int) -> Option<int>
    decreases sections.len() - i,
{
    if i < 0 || i >= sections.len() {
        None
    } else if sections[i].spec_match_addr(addr) {
        Some(i)
    } else {
        spec_find_section(sections, addr, i + 1)
    }
}

/// A found index names a section within bounds that matches the address.
pub proof fn lemma_find_section_props(sections: Seq<Section>, addr: PeAddr, j: int)
    requires
        0 <= j,
        spec_find_section(sections, addr, j) is Some,
    ensures
        ({
            let i = spec_find_section(sections, addr, j)->Some_0;
            &&& j <= i < sections.len()
            &&& sections[i].spec_match_addr(addr)
        }),
    decreases sections.len() - j,
{
    if j < sections.len() && !sections[j].spec_match_addr(addr) {
        lemma_find_section_props(sections, addr, j + 1);
    }
}

/// First index at or past `i` of a section whose name bytes equal `name`.
pub open spec fn spec_find_named(sections: Seq<Section>, name: Seq<u8>, i: int) -> Option<int>
    decreases sections.len() - i,
{
    if i < 0 || i >= sections.len() {
        None
    } else if sections[i].spec_header().name@ == name {
        Some(i)
    } else {
        spec_find_named(sections, name, i + 1)
    }
}

/// A found index is the first match: every earlier candidate is empty or
/// does not contain the address. Together with
/// [`lemma_find_section_props`], the section a lookup returns is the unique
/// first non-empty section containing the address, or none exists.
pub proof fn lemma_find_section_first(sections: Seq<Section>, addr: PeAddr, j: int)
    requires
        0 <= j,
        spec_find_section(sections, addr, j) is Some,
    ensures
        forall|l: int|
            j <= l < spec_find_section(sections, addr, j)->Some_0 ==> !sections[l].spec_match_addr(
                addr,
            ),
    decreases sections.len() - j,
{
    if j < sections.len() && !sections[j].spec_match_addr(addr) {
        lemma_find_section_first(sections, addr, j + 1);
    }
}

/// When the lookup finds nothing, no section at or past `j` matches.
pub proof fn lemma_find_section_none(sections: Seq<Section>, addr: PeAddr, j: int)
    requires
        0 <= j,
        spec_find_section(sections, addr, j) is None,
    ensures
        forall|l: int| j <= l < sections.len() ==> !sections[l].spec_match_addr(addr),
    decreases sections.len() - j,
{
    if j < sections.len() {
        lemma_find_section_none(sections, addr, j + 1);
    }
}

/// For every accepted image, every section's raw-data range lies within
/// the image bytes, so every non-empty section can back address lookups.
pub proof fn lemma_accepted_sections_fit(s: Seq<u8>, k: int)
    requires
        spec_image_wf(s),
        0 <= k < spec_num_sections(s),
    ensures
        spec_section_fits(s, spec_slot_pos(s, k)),
{
}

/// Acceptance is a function of the bytes alone: a buffer rejected by
/// `parse` is rejected however often `parse` is called on the same view of
/// it.
pub proof fn lemma_parse_deterministic(s1: Seq<u8>, s2: Seq<u8>)
    requires
        s1 == s2,
    ensures
        spec_image_wf(s1) == spec_image_wf(s2),
        spec_image_invalid_format(s1) == spec_image_invalid_format(s2),
{
}

/// View of a PE32+ file: the validated headers, the section table, and a
/// reader over the whole image.
pub struct PeView<'a> {
    dos_header: DosHeader,
    nt_header: NtHeader,
    sections: Vec<Section<'a>>,
    data: ByteReader<'a>,
}

impl<'a> PeView<'a> {
    /// The DOS header of the view.
    pub closed spec fn spec_dos(self) -> DosHeader {
        self.dos_header
    }

    /// The NT header of the view.
    pub closed spec fn spec_nt(self) -> NtHeader {
        self.nt_header
    }

    /// The sections of the view.
    pub closed spec fn spec_sections(self) -> Seq<Section<'a>> {
        self.sections@
    }

    /// The reader over the whole image.
    pub closed spec fn spec_data(self) -> ByteReader<'a> {
        self.data
    }

    /// How a view relates to the bytes it was parsed from: every header
    /// decodes from its on-disk position and passes validation, the section
    /// list mirrors the section table, and the view's reader ranges over the
    /// whole image with no relative base.
    pub open spec fn wf(self, s: Seq<u8>) -> bool {
        &&& s.len() >= 64
        &&& self.spec_dos().decodes_from(s, 0)
        &&& spec_dos_valid(self.spec_dos())
        &&& self.spec_dos().e_lfanew + 264 <= s.len()
        &&& self.spec_dos().e_lfanew % 8 == 0
        &&& self.spec_nt().decodes_from(s, self.spec_dos().e_lfanew as int)
        &&& spec_nt_valid(self.spec_nt())
        &&& self.spec_sections().len() == self.spec_nt().file_header.num_of_sections
        &&& forall|j: int|
            0 <= j < self.spec_sections().len() ==> {
                let p = self.spec_dos().e_lfanew + 24
                    + self.spec_nt().file_header.size_of_optional_header + 40 * j;
                &&& (#[trigger] self.spec_sections()[j]).spec_header().decodes_from(s, p)
                &&& spec_section_valid(
                    self.spec_sections()[j].spec_header(),
                    self.spec_nt().optional_header,
                )
                &&& self.spec_sections()[j].is_parse_of(s, self.spec_sections()[j].spec_header())
            }
        &&& self.spec_data().buf() == s
        &&& !self.spec_data().has_base()
    }

    /// Creates a view of a PE32+ file by parsing and validating the raw
    /// bytes representing it.
    ///
    /// The buffer is accepted exactly when [`spec_image_wf`] holds of it,
    /// and `InvalidFileFormat` is reported exactly when
    /// [`spec_image_invalid_format`] holds: the magic numbers name a file
    /// that is not PE32+.
    pub fn parse(bytes: &'a [u8]) -> (r: Result<Self, Error>)
        ensures
            r is Ok <==> spec_image_wf(bytes@),
            r is Ok ==> (r->Ok_0).wf(bytes@),
            r == Result::<Self, Error>::Err(Error::InvalidFileFormat) <==> spec_image_invalid_format(
                bytes@,
            ),
            r is Err ==> (r->Err_0 is Misaligned || r->Err_0 is InsufficientBuffer
                || r->Err_0 is Malformed || r->Err_0 is InvalidFileFormat),
    {
        let n = bytes.len();
        let ghost s = bytes@;
        let mut data = ByteReader::new(bytes);

        // Read and validate the DOS header at the start of the image.
        let dos = match data.read::<DosHeader>() {
            Ok(h) => h,
            Err(e) => {
                return Err(e);
            },
        };
        match dos.validate() {
            Ok(_) => {},
            Err(e) => {
                return Err(e);
            },
        }

        // Read and validate the NT header at the offset the DOS header gives.
        data.skip(SkipPos::Rel(dos.e_lfanew as usize));
        let nt = match data.read::<NtHeader>() {
            Ok(h) => h,
            Err(e) => {
                return Err(e);
            },
        };
        match nt.validate() {
            Ok(_) => {},
            Err(e) => {
                proof {
                    lemma_opt_valid_bridge(nt.optional_header, s, spec_lfanew(s) + 24);
                }
                return Err(e);
            },
        }
        proof {
            lemma_opt_valid_bridge(nt.optional_header, s, spec_lfanew(s) + 24);
        }

        // Move to the section table, past the signature and both headers.
        let table_pos = match (dos.e_lfanew as usize).checked_add(24) {
            Some(v) => match v.checked_add(nt.file_header.size_of_optional_header as usize) {
                Some(v2) => v2,
                None => {
                    proof {
                        assert(spec_num_sections(s) >= 2);
                        assert(spec_slot_pos(s, 0) == spec_table_pos(s));
                        assert(!spec_section_slot_ok(s, spec_slot_pos(s, 0)));
                    }
                    return Err(Error::InsufficientBuffer);
                },
            },
            None => {
                proof {
                    assert(spec_num_sections(s) >= 2);
                    assert(spec_slot_pos(s, 0) == spec_table_pos(s));
                    assert(!spec_section_slot_ok(s, spec_slot_pos(s, 0)));
                }
                return Err(Error::InsufficientBuffer);
            },
        };
        data.skip(SkipPos::Rel(table_pos));

        // Read, validate and materialize each section.
        let num = nt.file_header.num_of_sections;
        let mut sections: Vec<Section<'a>> = Vec::new();
        let mut k: usize = 0;
        while k < num as usize
            invariant
                s == bytes@,
                n == s.len(),
                spec_dos_ok(s),
                spec_nt_readable(s),
                spec_nt_at_ok(s),
                dos.decodes_from(s, 0),
                spec_dos_valid(dos),
                nt.decodes_from(s, spec_lfanew(s)),
                spec_nt_valid(nt),
                num == nt.file_header.num_of_sections,
                table_pos as int == spec_table_pos(s),
                data.buf() == s,
                !data.has_base(),
                data.cursor() == if table_pos as int <= s.len() as int {
                    table_pos + 40 * k
                } else {
                    s.len() as int
                },
                table_pos > n ==> k == 0,
                0 <= k <= num as usize,
                sections@.len() == k,
                forall|j: int|
                    0 <= j < k ==> spec_section_slot_ok(s, #[trigger] spec_slot_pos(s, j)),
                forall|j: int|
                    0 <= j < k ==> {
                        let p = spec_table_pos(s) + 40 * j;
                        &&& (#[trigger] sections@[j]).spec_header().decodes_from(s, p)
                        &&& spec_section_valid(sections@[j].spec_header(), nt.optional_header)
                        &&& sections@[j].is_parse_of(s, sections@[j].spec_header())
                    },
            decreases num as int - k,
        {
            let sh = match data.read::<SectionHeader>() {
                Ok(h) => h,
                Err(e) => {
                    proof {
                        assert(0 <= k < spec_num_sections(s));
                        assert(!spec_section_slot_ok(s, spec_slot_pos(s, k as int)));
                    }
                    return Err(e);
                },
            };
            match sh.validate(&nt.optional_header) {
                Ok(_) => {},
                Err(e) => {
                    proof {
                        lemma_section_valid_bridge(
                            sh,
                            nt.optional_header,
                            s,
                            spec_slot_pos(s, k as int),
                            spec_lfanew(s) + 24,
                        );
                        assert(0 <= k < spec_num_sections(s));
                        assert(!spec_section_slot_ok(s, spec_slot_pos(s, k as int)));
                    }
                    return Err(e);
                },
            }
            let sec = match Section::parse(bytes, &sh) {
                Ok(v) => v,
                Err(e) => {
                    proof {
                        assert(0 <= k < spec_num_sections(s));
                        assert(!spec_section_fits(s, spec_slot_pos(s, k as int)));
                        assert(!spec_section_slot_ok(s, spec_slot_pos(s, k as int)));
                    }
                    return Err(e);
                },
            };
            proof {
                lemma_section_valid_bridge(
                    sh,
                    nt.optional_header,
                    s,
                    spec_slot_pos(s, k as int),
                    spec_lfanew(s) + 24,
                );
            }
            sections.push(sec);
            k = k + 1;
        }

        Ok(PeView { dos_header: dos, nt_header: nt, sections, data })
    }

    /// Returns a reference to the DOS header of this view.
    pub fn dos_header(&self) -> (r: &DosHeader)
        ensures
            *r == self.spec_dos(),
    {
        &self.dos_header
    }

    /// Returns a reference to the NT header of this view.
    pub fn nt_header(&self) -> (r: &NtHeader)
        ensures
            *r == self.spec_nt(),
    {
        &self.nt_header
    }

    /// Returns the sections of this view.
    pub fn sections(&self) -> (r: &[Section<'a>])
        ensures
            r@ == self.spec_sections(),
    {
        self.sections.as_slice()
    }

    /// Returns the first non-empty section whose range for the address kind
    /// contains `addr`, or `None` when no section does.
    pub fn section_by_addr(&self, addr: PeAddr) -> (r: Option<&Section<'a>>)
        ensures
            match r {
                Some(sec) => {
                    &&& spec_find_section(self.spec_sections(), addr, 0) is Some
                    &&& *sec == self.spec_sections()[spec_find_section(
                        self.spec_sections(),
                        addr,
                        0,
                    )->Some_0]
                },
                None => spec_find_section(self.spec_sections(), addr, 0) is None,
            },
    {
        let n = self.sections.len();
        let mut i: usize = 0;
        while i < n
            invariant
                n == self.spec_sections().len(),
                0 <= i <= n,
                spec_find_section(self.spec_sections(), addr, 0) == spec_find_section(
                    self.spec_sections(),
                    addr,
                    i as int,
                ),
            decreases n - i,
        {
            let sec = &self.sections[i];
            let e = sec.empty();
            if !e && sec.contains_addr(addr) {
                return Some(sec);
            }
            i = i + 1;
        }
        None
    }

    /// Returns the first section whose name bytes equal the UTF-8 encoding
    /// of `name`, or `None` when no section carries that name.
    pub fn section_by_name(&self, name: &str) -> (r: Option<&Section<'a>>)
        ensures
            match r {
                Some(sec) => {
                    &&& spec_find_named(self.spec_sections(), name.spec_bytes(), 0) is Some
                    &&& *sec == self.spec_sections()[spec_find_named(
                        self.spec_sections(),
                        name.spec_bytes(),
                        0,
                    )->Some_0]
                },
                None => spec_find_named(self.spec_sections(), name.spec_bytes(), 0) is None,
            },
    {
        let n = self.sections.len();
        let mut i: usize = 0;
        while i < n
            invariant
                n == self.spec_sections().len(),
                0 <= i <= n,
                spec_find_named(self.spec_sections(), name.spec_bytes(), 0) == spec_find_named(
                    self.spec_sections(),
                    name.spec_bytes(),
                    i as int,
                ),
            decreases n - i,
        {
            let sec = &self.sections[i];
            if sec.name_is(name) {
                return Some(sec);
            }
            i = i + 1;
        }
        None
    }

    /// Checks if the specified flag is set in the file header's
    /// characteristics.
    pub fn has_flag(&self, flag: FileFlags) -> (r: bool)
        ensures
            r == ((self.spec_nt().file_header.characteristics & flag.spec_value()) != 0),
    {
        self.nt_header.file_header.characteristics & flag.value() != 0
    }

    /// The directory descriptor in the slot `typ` names, when its size is
    /// nonzero.
    pub open spec fn spec_directory(self, typ: DataDirectoryType) -> Option<DataDirectory> {
        let d = self.spec_nt().optional_header.data_directories@[typ.spec_index()];
        if d.size > 0 {
            Some(d)
        } else {
            None
        }
    }

    /// Returns a reference to the data directory of the specified type, or
    /// `None` when that directory is empty.
    pub fn directory(&self, typ: DataDirectoryType) -> (r: Option<&DataDirectory>)
        ensures
            match r {
                Some(d) => self.spec_directory(typ) == Some(*d),
                None => self.spec_directory(typ) is None,
            },
    {
        let i = typ.index();
        let directory = array_index_get(&self.nt_header.optional_header.data_directories, i);
        if directory.size > 0 {
            Some(directory)
        } else {
            None
        }
    }

    /// The reader backing the directory `typ`: the view's own reader for
    /// the certificate table (addressed by file offset), else the raw-data
    /// reader of the first section containing the directory's RVA.
    pub open spec fn spec_dir_backing(self, typ: DataDirectoryType) -> Option<ByteReader<'a>> {
        if typ is CertificateTable {
            Some(self.spec_data())
        } else {
            let d = self.spec_directory(typ)->Some_0;
            match spec_find_section(self.spec_sections(), PeAddr::Rva(d.addr), 0) {
                Some(i) => self.spec_sections()[i].spec_data(),
                None => None,
            }
        }
    }

    /// What resolving the directory `typ` to a byte window yields: the
    /// window and the descriptor, or the error. `DataDirectoryEmpty` when
    /// the directory's size is zero; `SectionEmpty` when no non-empty
    /// section contains its RVA; `InsufficientBuffer` when the window does
    /// not fit the backing bytes. The window is sized by the descriptor,
    /// except for the import table, whose window runs to the end of the
    /// backing bytes.
    pub open spec fn spec_dir_table_outcome(self, typ: DataDirectoryType) -> Result<
        (Seq<u8>, DataDirectory),
        Error,
    > {
        if self.spec_directory(typ) is None {
            Err(Error::DataDirectoryEmpty)
        } else {
            let d = self.spec_directory(typ)->Some_0;
            match self.spec_dir_backing(typ) {
                None => Err(Error::SectionEmpty),
                Some(back) => {
                    let s = back.buf();
                    let b = back.base();
                    if s.len() <= d.size {
                        Err(Error::InsufficientBuffer)
                    } else if d.addr < b || d.addr - b > s.len() {
                        Err(Error::InsufficientBuffer)
                    } else {
                        let start = d.addr - b;
                        if typ is ImportTable {
                            Ok((s.subrange(start, s.len() as int), d))
                        } else if start + d.size <= s.len() {
                            Ok((s.subrange(start, start + d.size), d))
                        } else {
                            Err(Error::InsufficientBuffer)
                        }
                    }
                },
            }
        }
    }

    /// Resolves the directory `typ` to its byte window and hands the
    /// window to the table type.
    fn directory_table<T: DataDirectoryTable<'a>>(&'a self, typ: DataDirectoryType) -> (r: Result<
        T,
        Error,
    >)
        requires
            typ is ExportTable || typ is ImportTable || typ is RelocationTable
                || typ is CertificateTable,
        ensures
            match self.spec_dir_table_outcome(typ) {
                Ok((w, d)) => r is Ok && (r->Ok_0).inited(w, d),
                Err(e) => r == Result::<T, Error>::Err(e),
            },
    {
        let directory = match self.directory(typ) {
            Some(d) => d,
            None => {
                return Err(Error::DataDirectoryEmpty);
            },
        };
        let data: &ByteReader<'a> = match typ {
            DataDirectoryType::CertificateTable => &self.data,
            _ => {
                match self.section_by_addr(PeAddr::Rva(directory.addr)) {
                    Some(sec) => {
                        proof {
                            lemma_find_section_props(
                                self.spec_sections(),
                                PeAddr::Rva(directory.addr),
                                0,
                            );
                        }
                        match sec.data() {
                            Some(rd) => rd,
                            None => vstd::pervasive::unreached(),
                        }
                    },
                    None => {
                        return Err(Error::SectionEmpty);
                    },
                }
            },
        };
        proof {
            assert(self.spec_dir_backing(typ) == Some(*data));
        }
        let dlen = data.bytes().len();
        if dlen <= directory.size as usize {
            return Err(Error::InsufficientBuffer);
        }
        let window = match data.bytes_at(directory.addr as usize) {
            Ok(t) => t,
            Err(e) => {
                return Err(e);
            },
        };
        let bytes = match typ {
            DataDirectoryType::ImportTable => window,
            _ => {
                if directory.size as usize <= window.len() {
                    let w = slice_subrange(window, 0, directory.size as usize);
                    proof {
                        let back = self.spec_dir_backing(typ)->Some_0;
                        assert(w@ =~= back.buf().subrange(
                            directory.addr - back.base(),
                            directory.addr - back.base() + directory.size,
                        ));
                    }
                    w
                } else {
                    return Err(Error::InsufficientBuffer);
                }
            },
        };
        Ok(T::new(bytes, directory))
    }

    /// Returns a fallible iterator over the export table.
    pub fn exports(&'a self) -> (r: Result<ExportTable<'a>, Error>)
        ensures
            match self.spec_dir_table_outcome(DataDirectoryType::ExportTable) {
                Ok((w, d)) => r is Ok && (r->Ok_0).inited(w, d),
                Err(e) => r == Result::<ExportTable<'a>, Error>::Err(e),
            },
    {
        self.directory_table(DataDirectoryType::ExportTable)
    }

    /// Returns a fallible iterator over the import table.
    pub fn imports(&'a self) -> (r: Result<ImportTable<'a>, Error>)
        ensures
            match self.spec_dir_table_outcome(DataDirectoryType::ImportTable) {
                Ok((w, d)) => r is Ok && (r->Ok_0).inited(w, d),
                Err(e) => r == Result::<ImportTable<'a>, Error>::Err(e),
            },
    {
        self.directory_table(DataDirectoryType::ImportTable)
    }

    /// Returns a fallible iterator over the base-relocation table.
    pub fn relocations(&'a self) -> (r: Result<RelocationTable<'a>, Error>)
        ensures
            match self.spec_dir_table_outcome(DataDirectoryType::RelocationTable) {
                Ok((w, d)) => r is Ok && (r->Ok_0).inited(w, d),
                Err(e) => r == Result::<RelocationTable<'a>, Error>::Err(e),
            },
    {
        self.directory_table(DataDirectoryType::RelocationTable)
    }

    /// Returns a fallible iterator over the certificate table.
    pub fn certificates(&'a self) -> (r: Result<CertificateTable<'a>, Error>)
        ensures
            match self.spec_dir_table_outcome(DataDirectoryType::CertificateTable) {
                Ok((w, d)) => r is Ok && (r->Ok_0).inited(w, d),
                Err(e) => r == Result::<CertificateTable<'a>, Error>::Err(e),
            },
    {
        self.directory_table(DataDirectoryType::CertificateTable)
    }
}

} // verus!
