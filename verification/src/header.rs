//! Fixed-layout file headers of a PE32+ image and their validators.

use vstd::prelude::*;
use vstd::utf8::valid_utf8;

use crate::dir::{spec_data_directory_at, DataDirectory};
use crate::error::Error;
use crate::mem::{read_u16_le, read_u32_le, read_u64_le, read_u8_le, u16_at, u32_at, u64_at, u8_at, FromBytes};

verus! {

broadcast use vstd::array::group_array_axioms;

/// The DOS stub header at the start of every image.
#[derive(Clone, Copy, Debug)]
pub struct DosHeader {
    pub e_magic: u16,
    pub e_cblp: u16,
    pub e_cp: u16,
    pub e_crlc: u16,
    pub e_cparhdr: u16,
    pub e_minalloc: u16,
    pub e_maxalloc: u16,
    pub e_ss: u16,
    pub e_sp: u16,
    pub e_csum: u16,
    pub e_ip: u16,
    pub e_cs: u16,
    pub e_lfarlc: u16,
    pub e_ovno: u16,
    pub e_res: [u16; 4],
    pub e_oemid: u16,
    pub e_oeminfo: u16,
    pub e_res2: [u16; 10],
    pub e_lfanew: u32,
}

/// A DOS header carries the `MZ` magic and a four-byte-aligned offset to the
/// NT header.
pub open spec fn spec_dos_valid(h: DosHeader) -> bool {
    &&& h.e_magic == 0x5A4D
    &&& h.e_lfanew % 4 == 0
}

impl DosHeader {
    /// Returns the header itself when it passes validation, else `Malformed`.
    pub fn validate(&self) -> (r: Result<&Self, Error>)
        ensures
            r is Ok <==> spec_dos_valid(*self),
            r is Ok ==> r->Ok_0 == self,
            r is Err ==> r->Err_0 is Malformed,
    {
        if self.e_magic != 0x5A4D {
            return Error::make_malformed("DOS header has an invalid magic number".to_owned());
        }
        if self.e_lfanew % 4 != 0 {
            return Error::make_malformed("DOS header has an unaligned new header offset".to_owned());
        }
        Ok(self)
    }
}

impl FromBytes for DosHeader {
    open spec fn spec_size() -> int {
        64
    }

    open spec fn spec_align() -> int {
        4
    }

    open spec fn decodes_from(self, s: Seq<u8>, p: int) -> bool {
        &&& self.e_magic == u16_at(s, p)
        &&& self.e_cblp == u16_at(s, p + 2)
        &&& self.e_cp == u16_at(s, p + 4)
        &&& self.e_crlc == u16_at(s, p + 6)
        &&& self.e_cparhdr == u16_at(s, p + 8)
        &&& self.e_minalloc == u16_at(s, p + 10)
        &&& self.e_maxalloc == u16_at(s, p + 12)
        &&& self.e_ss == u16_at(s, p + 14)
        &&& self.e_sp == u16_at(s, p + 16)
        &&& self.e_csum == u16_at(s, p + 18)
        &&& self.e_ip == u16_at(s, p + 20)
        &&& self.e_cs == u16_at(s, p + 22)
        &&& self.e_lfarlc == u16_at(s, p + 24)
        &&& self.e_ovno == u16_at(s, p + 26)
        &&& self.e_res@ == Seq::new(4, |i: int| u16_at(s, p + 28 + 2 * i))
        &&& self.e_oemid == u16_at(s, p + 36)
        &&& self.e_oeminfo == u16_at(s, p + 38)
        &&& self.e_res2@ == Seq::new(10, |i: int| u16_at(s, p + 40 + 2 * i))
        &&& self.e_lfanew == u32_at(s, p + 60)
    }

    fn exec_size() -> usize {
        64
    }

    fn exec_align() -> usize {
        4
    }

    fn decode_at(bytes: &[u8], p: usize) -> (r: Self)
    {
        let n = bytes.len();
        let ghost s = bytes@;
        let mut e_res: [u16; 4] = [0u16; 4];
        let mut i: usize = 0;
        while i < 4
            invariant
                p + 64 <= s.len(),
                s.len() <= usize::MAX,
                s == bytes@,
                i <= 4,
                forall|j: int| 0 <= j < i ==> e_res@[j] == u16_at(s, p + 28 + 2 * j),
            decreases 4 - i,
        {
            e_res[i] = read_u16_le(bytes, p + 28 + 2 * i);
            i = i + 1;
        }
        let mut e_res2: [u16; 10] = [0u16; 10];
        let mut i: usize = 0;
        while i < 10
            invariant
                p + 64 <= s.len(),
                s.len() <= usize::MAX,
                s == bytes@,
                i <= 10,
                forall|j: int| 0 <= j < i ==> e_res2@[j] == u16_at(s, p + 40 + 2 * j),
            decreases 10 - i,
        {
            e_res2[i] = read_u16_le(bytes, p + 40 + 2 * i);
            i = i + 1;
        }
        let r = DosHeader {
            e_magic: read_u16_le(bytes, p),
            e_cblp: read_u16_le(bytes, p + 2),
            e_cp: read_u16_le(bytes, p + 4),
            e_crlc: read_u16_le(bytes, p + 6),
            e_cparhdr: read_u16_le(bytes, p + 8),
            e_minalloc: read_u16_le(bytes, p + 10),
            e_maxalloc: read_u16_le(bytes, p + 12),
            e_ss: read_u16_le(bytes, p + 14),
            e_sp: read_u16_le(bytes, p + 16),
            e_csum: read_u16_le(bytes, p + 18),
            e_ip: read_u16_le(bytes, p + 20),
            e_cs: read_u16_le(bytes, p + 22),
            e_lfarlc: read_u16_le(bytes, p + 24),
            e_ovno: read_u16_le(bytes, p + 26),
            e_res,
            e_oemid: read_u16_le(bytes, p + 36),
            e_oeminfo: read_u16_le(bytes, p + 38),
            e_res2,
            e_lfanew: read_u32_le(bytes, p + 60),
        };
        proof {
            assert(r.e_res@ =~= Seq::new(4, |i: int| u16_at(s, p + 28 + 2 * i)));
            assert(r.e_res2@ =~= Seq::new(10, |i: int| u16_at(s, p + 40 + 2 * i)));
        }
        r
    }
}

/// The COFF file header.
#[derive(Clone, Copy, Debug)]
pub struct FileHeader {
    pub machine: u16,
    pub num_of_sections: u16,
    pub time_date_stamp: u32,
    pub ptr_to_symbol_table: u32,
    pub num_of_symbols: u32,
    pub size_of_optional_header: u16,
    pub characteristics: u16,
}

/// The file header whose twenty on-disk bytes sit at `[p, p + 20)` of `s`.
pub open spec fn spec_file_header_at(s: Seq<u8>, p: int) -> FileHeader {
    FileHeader {
        machine: u16_at(s, p),
        num_of_sections: u16_at(s, p + 2),
        time_date_stamp: u32_at(s, p + 4),
        ptr_to_symbol_table: u32_at(s, p + 8),
        num_of_symbols: u32_at(s, p + 12),
        size_of_optional_header: u16_at(s, p + 16),
        characteristics: u16_at(s, p + 18),
    }
}

/// Machine architectures accepted by the validator.
#[derive(Clone, Copy, Debug)]
pub enum FileMachine {
    I386,
    IA64,
    AMD64,
}

impl FileMachine {
    /// The on-disk machine value of this architecture.
    pub open spec fn spec_value(self) -> u16 {
        match self {
            FileMachine::I386 => 0x014c,
            FileMachine::IA64 => 0x0200,
            FileMachine::AMD64 => 0x8664,
        }
    }

    /// The on-disk machine value, as a runtime value.
    pub fn value(self) -> (v: u16)
        ensures
            v == self.spec_value(),
    {
        match self {
            FileMachine::I386 => 0x014c,
            FileMachine::IA64 => 0x0200,
            FileMachine::AMD64 => 0x8664,
        }
    }
}

/// Characteristics flags of the file header.
#[derive(Clone, Copy, Debug)]
pub enum FileFlags {
    RelocsStripped,
    ExecutableImage,
    LargeAddress,
    Machine32,
    DebugStripped,
    RemovableRun,
    NetworkRun,
    SystemFile,
    Dll,
    UpSystemOnly,
}

impl FileFlags {
    /// The bit this flag occupies in `characteristics`.
    pub open spec fn spec_value(self) -> u16 {
        match self {
            FileFlags::RelocsStripped => 0x1,
            FileFlags::ExecutableImage => 0x2,
            FileFlags::LargeAddress => 0x20,
            FileFlags::Machine32 => 0x100,
            FileFlags::DebugStripped => 0x200,
            FileFlags::RemovableRun => 0x400,
            FileFlags::NetworkRun => 0x800,
            FileFlags::SystemFile => 0x1000,
            FileFlags::Dll => 0x2000,
            FileFlags::UpSystemOnly => 0x4000,
        }
    }

    /// The flag's bit, as a runtime value.
    pub fn value(self) -> (v: u16)
        ensures
            v == self.spec_value(),
    {
        match self {
            FileFlags::RelocsStripped => 0x1,
            FileFlags::ExecutableImage => 0x2,
            FileFlags::LargeAddress => 0x20,
            FileFlags::Machine32 => 0x100,
            FileFlags::DebugStripped => 0x200,
            FileFlags::RemovableRun => 0x400,
            FileFlags::NetworkRun => 0x800,
            FileFlags::SystemFile => 0x1000,
            FileFlags::Dll => 0x2000,
            FileFlags::UpSystemOnly => 0x4000,
        }
    }
}

/// A file header names a known machine, carries between 2 and 96 sections, a
/// nonzero optional-header size and nonzero characteristics.
pub open spec fn spec_file_valid(h: FileHeader) -> bool {
    &&& (h.machine == 0x014c || h.machine == 0x0200 || h.machine == 0x8664)
    &&& 2 <= h.num_of_sections <= 96
    &&& h.size_of_optional_header != 0
    &&& h.characteristics != 0
}

/// The file-header case reported as `InvalidFileFormat`: a plausible header
/// whose optional-header size is zero.
pub open spec fn spec_file_invalid_format(h: FileHeader) -> bool {
    &&& (h.machine == 0x014c || h.machine == 0x0200 || h.machine == 0x8664)
    &&& 2 <= h.num_of_sections <= 96
    &&& h.size_of_optional_header == 0
}

impl FileHeader {
    /// Returns the header itself when it passes validation.
    pub fn validate(&self) -> (r: Result<&Self, Error>)
        ensures
            r is Ok <==> spec_file_valid(*self),
            r is Ok ==> r->Ok_0 == self,
            r == Result::<&Self, Error>::Err(Error::InvalidFileFormat) <==> spec_file_invalid_format(*self),
            r is Err ==> r->Err_0 is Malformed || r->Err_0 is InvalidFileFormat,
    {
        if self.machine != 0x8664 && self.machine != 0x014c && self.machine != 0x0200 {
            return Error::make_malformed("file header has an invalid machine architecture".to_owned());
        }
        if self.num_of_sections < 2 || self.num_of_sections > 96 {
            return Error::make_malformed("file header has an invalid number of sections".to_owned());
        }
        if self.size_of_optional_header == 0 {
            return Err(Error::InvalidFileFormat);
        }
        if self.characteristics == 0 {
            return Error::make_malformed("file header has missing characteristics".to_owned());
        }
        Ok(self)
    }
}

impl FromBytes for FileHeader {
    open spec fn spec_size() -> int {
        20
    }

    open spec fn spec_align() -> int {
        4
    }

    open spec fn decodes_from(self, s: Seq<u8>, p: int) -> bool {
        self == spec_file_header_at(s, p)
    }

    fn exec_size() -> usize {
        20
    }

    fn exec_align() -> usize {
        4
    }

    fn decode_at(bytes: &[u8], p: usize) -> Self {
        let n = bytes.len();
        FileHeader {
            machine: read_u16_le(bytes, p),
            num_of_sections: read_u16_le(bytes, p + 2),
            time_date_stamp: read_u32_le(bytes, p + 4),
            ptr_to_symbol_table: read_u32_le(bytes, p + 8),
            num_of_symbols: read_u32_le(bytes, p + 12),
            size_of_optional_header: read_u16_le(bytes, p + 16),
            characteristics: read_u16_le(bytes, p + 18),
        }
    }
}

/// The PE32+ optional header.
#[derive(Clone, Copy, Debug)]
pub struct OptionalHeader {
    pub magic: u16,
    pub major_linker_version: u8,
    pub minor_linker_version: u8,
    pub size_of_code: u32,
    pub size_of_initialized_data: u32,
    pub size_of_uninitialized_data: u32,
    pub address_of_entry_point: u32,
    pub base_of_code: u32,
    pub image_base: u64,
    pub section_alignment: u32,
    pub file_alignment: u32,
    pub major_os_version: u16,
    pub minor_os_version: u16,
    pub major_image_version: u16,
    pub minor_image_version: u16,
    pub major_subsystem_version: u16,
    pub minor_subsystem_version: u16,
    pub win32_version_value: u32,
    pub size_of_image: u32,
    pub size_of_headers: u32,
    pub check_sum: u32,
    pub subsystem: u16,
    pub dll_characteristics: u16,
    pub size_of_stack_reserve: u64,
    pub size_of_stack_commit: u64,
    pub size_of_heap_reserve: u64,
    pub size_of_heap_commit: u64,
    pub loader_flags: u32,
    pub num_of_rva_and_sizes: u32,
    pub data_directories: [DataDirectory; 16],
}

/// Whether `h` is the optional header whose 240 on-disk bytes sit at
/// `[p, p + 240)` of `s`.
pub open spec fn spec_opt_header_decodes(h: OptionalHeader, s: Seq<u8>, p: int) -> bool {
    &&& h.magic == u16_at(s, p)
    &&& h.major_linker_version == u8_at(s, p + 2)
    &&& h.minor_linker_version == u8_at(s, p + 3)
    &&& h.size_of_code == u32_at(s, p + 4)
    &&& h.size_of_initialized_data == u32_at(s, p + 8)
    &&& h.size_of_uninitialized_data == u32_at(s, p + 12)
    &&& h.address_of_entry_point == u32_at(s, p + 16)
    &&& h.base_of_code == u32_at(s, p + 20)
    &&& h.image_base == u64_at(s, p + 24)
    &&& h.section_alignment == u32_at(s, p + 32)
    &&& h.file_alignment == u32_at(s, p + 36)
    &&& h.major_os_version == u16_at(s, p + 40)
    &&& h.minor_os_version == u16_at(s, p + 42)
    &&& h.major_image_version == u16_at(s, p + 44)
    &&& h.minor_image_version == u16_at(s, p + 46)
    &&& h.major_subsystem_version == u16_at(s, p + 48)
    &&& h.minor_subsystem_version == u16_at(s, p + 50)
    &&& h.win32_version_value == u32_at(s, p + 52)
    &&& h.size_of_image == u32_at(s, p + 56)
    &&& h.size_of_headers == u32_at(s, p + 60)
    &&& h.check_sum == u32_at(s, p + 64)
    &&& h.subsystem == u16_at(s, p + 68)
    &&& h.dll_characteristics == u16_at(s, p + 70)
    &&& h.size_of_stack_reserve == u64_at(s, p + 72)
    &&& h.size_of_stack_commit == u64_at(s, p + 80)
    &&& h.size_of_heap_reserve == u64_at(s, p + 88)
    &&& h.size_of_heap_commit == u64_at(s, p + 96)
    &&& h.loader_flags == u32_at(s, p + 104)
    &&& h.num_of_rva_and_sizes == u32_at(s, p + 108)
    &&& h.data_directories@ == Seq::new(16, |i: int| spec_data_directory_at(s, p + 112 + 8 * i))
}

/// An optional header carries the PE32+ magic, a 64-KiB-aligned image base,
/// consistent section and file alignments, zeroed reserved fields and image
/// and header sizes that are multiples of their alignments.
pub open spec fn spec_opt_valid(h: OptionalHeader) -> bool {
    &&& h.magic == 0x20B
    &&& h.image_base % 0x10000 == 0
    &&& h.section_alignment >= h.file_alignment
    &&& h.file_alignment % 2 == 0
    &&& 512 <= h.file_alignment <= 0x10000
    &&& (h.section_alignment < 0x1000 ==> h.file_alignment == h.section_alignment)
    &&& h.win32_version_value == 0
    &&& h.size_of_image % h.section_alignment == 0
    &&& h.size_of_headers % h.file_alignment == 0
    &&& h.loader_flags == 0
}

impl OptionalHeader {
    /// Returns the header itself when it passes validation. A magic other
    /// than PE32+ is reported as `InvalidFileFormat`; every other rejection
    /// is `Malformed`.
    pub fn validate(&self) -> (r: Result<&Self, Error>)
        ensures
            r is Ok <==> spec_opt_valid(*self),
            r is Ok ==> r->Ok_0 == self,
            r == Result::<&Self, Error>::Err(Error::InvalidFileFormat) <==> self.magic != 0x20B,
            r is Err ==> r->Err_0 is Malformed || r->Err_0 is InvalidFileFormat,
    {
        if self.magic != 0x20B {
            return Err(Error::InvalidFileFormat);
        }
        if self.image_base % 0x10000 != 0 {
            return Error::make_malformed("optional header has an invalid image base".to_owned());
        }
        if self.section_alignment < self.file_alignment {
            return Error::make_malformed("optional header has an invalid section alignment".to_owned());
        }
        if self.file_alignment % 2 != 0 || self.file_alignment < 512 || self.file_alignment
            > 0x10000 || (self.section_alignment < 0x1000 && self.file_alignment
            != self.section_alignment) {
            return Error::make_malformed("optional header has an invalid file alignment".to_owned());
        }
        if self.win32_version_value != 0 {
            return Error::make_malformed(
                "optional header has a non-zero reserved field 'win32_version_value'".to_owned(),
            );
        }
        if self.size_of_image % self.section_alignment != 0 {
            return Error::make_malformed("optional header has an invalid size of image".to_owned());
        }
        if self.size_of_headers % self.file_alignment != 0 {
            return Error::make_malformed("optional header has an invalid size of headers".to_owned());
        }
        if self.loader_flags != 0 {
            return Error::make_malformed(
                "optional header has a non-zero reserved field 'loader_flags'".to_owned(),
            );
        }
        Ok(self)
    }
}

impl FromBytes for OptionalHeader {
    open spec fn spec_size() -> int {
        240
    }

    open spec fn spec_align() -> int {
        8
    }

    open spec fn decodes_from(self, s: Seq<u8>, p: int) -> bool {
        spec_opt_header_decodes(self, s, p)
    }

    fn exec_size() -> usize {
        240
    }

    fn exec_align() -> usize {
        8
    }

    fn decode_at(bytes: &[u8], p: usize) -> (r: Self)
    {
        let n = bytes.len();
        let ghost s = bytes@;
        let mut dirs: [DataDirectory; 16] = [DataDirectory { addr: 0, size: 0 }; 16];
        let mut i: usize = 0;
        while i < 16
            invariant
                p + 240 <= s.len(),
                s.len() <= usize::MAX,
                s == bytes@,
                i <= 16,
                forall|j: int|
                    0 <= j < i ==> dirs@[j] == spec_data_directory_at(s, p + 112 + 8 * j),
            decreases 16 - i,
        {
            dirs[i] = DataDirectory {
                addr: read_u32_le(bytes, p + 112 + 8 * i),
                size: read_u32_le(bytes, p + 112 + 8 * i + 4),
            };
            i = i + 1;
        }
        let r = OptionalHeader {
            magic: read_u16_le(bytes, p),
            major_linker_version: read_u8_le(bytes, p + 2),
            minor_linker_version: read_u8_le(bytes, p + 3),
            size_of_code: read_u32_le(bytes, p + 4),
            size_of_initialized_data: read_u32_le(bytes, p + 8),
            size_of_uninitialized_data: read_u32_le(bytes, p + 12),
            address_of_entry_point: read_u32_le(bytes, p + 16),
            base_of_code: read_u32_le(bytes, p + 20),
            image_base: read_u64_le(bytes, p + 24),
            section_alignment: read_u32_le(bytes, p + 32),
            file_alignment: read_u32_le(bytes, p + 36),
            major_os_version: read_u16_le(bytes, p + 40),
            minor_os_version: read_u16_le(bytes, p + 42),
            major_image_version: read_u16_le(bytes, p + 44),
            minor_image_version: read_u16_le(bytes, p + 46),
            major_subsystem_version: read_u16_le(bytes, p + 48),
            minor_subsystem_version: read_u16_le(bytes, p + 50),
            win32_version_value: read_u32_le(bytes, p + 52),
            size_of_image: read_u32_le(bytes, p + 56),
            size_of_headers: read_u32_le(bytes, p + 60),
            check_sum: read_u32_le(bytes, p + 64),
            subsystem: read_u16_le(bytes, p + 68),
            dll_characteristics: read_u16_le(bytes, p + 70),
            size_of_stack_reserve: read_u64_le(bytes, p + 72),
            size_of_stack_commit: read_u64_le(bytes, p + 80),
            size_of_heap_reserve: read_u64_le(bytes, p + 88),
            size_of_heap_commit: read_u64_le(bytes, p + 96),
            loader_flags: read_u32_le(bytes, p + 104),
            num_of_rva_and_sizes: read_u32_le(bytes, p + 108),
            data_directories: dirs,
        };
        proof {
            assert(r.data_directories@ =~= Seq::new(
                16,
                |i: int| spec_data_directory_at(s, p + 112 + 8 * i),
            ));
        }
        r
    }
}

/// The NT header: signature, file header and optional header.
#[derive(Clone, Copy, Debug)]
pub struct NtHeader {
    pub signature: u32,
    pub file_header: FileHeader,
    pub optional_header: OptionalHeader,
}

/// Whether `h` is the NT header whose 264 on-disk bytes sit at
/// `[p, p + 264)` of `s`.
pub open spec fn spec_nt_header_decodes(h: NtHeader, s: Seq<u8>, p: int) -> bool {
    &&& h.signature == u32_at(s, p)
    &&& h.file_header == spec_file_header_at(s, p + 4)
    &&& spec_opt_header_decodes(h.optional_header, s, p + 24)
}

/// An NT header carries the `PE\0\0` signature and valid file and optional
/// headers.
pub open spec fn spec_nt_valid(h: NtHeader) -> bool {
    &&& h.signature == 0x00004550
    &&& spec_file_valid(h.file_header)
    &&& spec_opt_valid(h.optional_header)
}

/// The NT-header case reported as `InvalidFileFormat`: a signed header whose
/// file or optional header indicates a non-PE32+ file.
pub open spec fn spec_nt_invalid_format(h: NtHeader) -> bool {
    &&& h.signature == 0x00004550
    &&& (spec_file_invalid_format(h.file_header) || (spec_file_valid(h.file_header)
        && h.optional_header.magic != 0x20B))
}

impl NtHeader {
    /// Returns the header itself when its signature, file header and
    /// optional header all pass validation.
    pub fn validate(&self) -> (r: Result<&Self, Error>)
        ensures
            r is Ok <==> spec_nt_valid(*self),
            r is Ok ==> r->Ok_0 == self,
            r == Result::<&Self, Error>::Err(Error::InvalidFileFormat) <==> spec_nt_invalid_format(*self),
            r is Err ==> r->Err_0 is Malformed || r->Err_0 is InvalidFileFormat,
    {
        if self.signature != 0x00004550 {
            return Error::make_malformed("NT header has an invalid signature".to_owned());
        }
        match self.file_header.validate() {
            Ok(_) => {},
            Err(e) => {
                return Err(e);
            },
        }
        match self.optional_header.validate() {
            Ok(_) => {},
            Err(e) => {
                return Err(e);
            },
        }
        Ok(self)
    }
}

impl FromBytes for NtHeader {
    open spec fn spec_size() -> int {
        264
    }

    open spec fn spec_align() -> int {
        8
    }

    open spec fn decodes_from(self, s: Seq<u8>, p: int) -> bool {
        spec_nt_header_decodes(self, s, p)
    }

    fn exec_size() -> usize {
        264
    }

    fn exec_align() -> usize {
        8
    }

    fn decode_at(bytes: &[u8], p: usize) -> Self {
        let n = bytes.len();
        NtHeader {
            signature: read_u32_le(bytes, p),
            file_header: FileHeader::decode_at(bytes, p + 4),
            optional_header: OptionalHeader::decode_at(bytes, p + 24),
        }
    }
}

/// A section-table entry.
#[derive(Clone, Copy, Debug)]
pub struct SectionHeader {
    pub name: [u8; 8],
    pub virtual_size: u32,
    pub virtual_address: u32,
    pub raw_data_size: u32,
    pub raw_data_address: u32,
    pub ptr_to_relocations: u32,
    pub ptr_to_linenumbers: u32,
    pub num_of_relocations: u16,
    pub num_of_linenumbers: u16,
    pub characteristics: u32,
}

/// Whether `h` is the section header whose forty on-disk bytes sit at
/// `[p, p + 40)` of `s`.
pub open spec fn spec_section_header_decodes(h: SectionHeader, s: Seq<u8>, p: int) -> bool {
    &&& h.name@ == s.subrange(p, p + 8)
    &&& h.virtual_size == u32_at(s, p + 8)
    &&& h.virtual_address == u32_at(s, p + 12)
    &&& h.raw_data_size == u32_at(s, p + 16)
    &&& h.raw_data_address == u32_at(s, p + 20)
    &&& h.ptr_to_relocations == u32_at(s, p + 24)
    &&& h.ptr_to_linenumbers == u32_at(s, p + 28)
    &&& h.num_of_relocations == u16_at(s, p + 32)
    &&& h.num_of_linenumbers == u16_at(s, p + 34)
    &&& h.characteristics == u32_at(s, p + 36)
}

/// Characteristics flags of a section header.
#[derive(Clone, Copy, Debug)]
pub enum SectionFlags {
    CntCode,
    CntInitData,
    CntUninitData,
    Gprel,
    NrelocOvfl,
    Discardable,
    NotCached,
    NotPaged,
    Shared,
    Execute,
    Read,
    Write,
}

impl SectionFlags {
    /// The bit this flag occupies in the section's `characteristics`.
    pub open spec fn spec_value(self) -> u32 {
        match self {
            SectionFlags::CntCode => 0x20,
            SectionFlags::CntInitData => 0x40,
            SectionFlags::CntUninitData => 0x80,
            SectionFlags::Gprel => 0x8000,
            SectionFlags::NrelocOvfl => 0x1000000,
            SectionFlags::Discardable => 0x2000000,
            SectionFlags::NotCached => 0x4000000,
            SectionFlags::NotPaged => 0x8000000,
            SectionFlags::Shared => 0x10000000,
            SectionFlags::Execute => 0x20000000,
            SectionFlags::Read => 0x40000000,
            SectionFlags::Write => 0x80000000,
        }
    }

    /// The flag's bit, as a runtime value.
    pub fn value(self) -> (v: u32)
        ensures
            v == self.spec_value(),
    {
        match self {
            SectionFlags::CntCode => 0x20,
            SectionFlags::CntInitData => 0x40,
            SectionFlags::CntUninitData => 0x80,
            SectionFlags::Gprel => 0x8000,
            SectionFlags::NrelocOvfl => 0x1000000,
            SectionFlags::Discardable => 0x2000000,
            SectionFlags::NotCached => 0x4000000,
            SectionFlags::NotPaged => 0x8000000,
            SectionFlags::Shared => 0x10000000,
            SectionFlags::Execute => 0x20000000,
            SectionFlags::Read => 0x40000000,
            SectionFlags::Write => 0x80000000,
        }
    }
}

/// A section header carries a UTF-8 name, raw data aligned to the file
/// alignment, and at least one nonzero size and one nonzero address.
pub open spec fn spec_section_valid(h: SectionHeader, opt: OptionalHeader) -> bool {
    &&& valid_utf8(h.name@)
    &&& h.raw_data_size % opt.file_alignment == 0
    &&& h.raw_data_address % opt.file_alignment == 0
    &&& !(h.virtual_size == 0 && h.raw_data_size == 0)
    &&& !(h.virtual_address == 0 && h.raw_data_address == 0)
}

impl SectionHeader {
    /// Returns the header itself when it passes validation against the
    /// optional header's file alignment.
    pub fn validate(&self, optional_header: &OptionalHeader) -> (r: Result<&Self, Error>)
        requires
            optional_header.file_alignment != 0,
        ensures
            r is Ok <==> spec_section_valid(*self, *optional_header),
            r is Ok ==> r->Ok_0 == self,
            r is Err ==> r->Err_0 is Malformed,
    {
        if crate::mem::slice_is_utf8(self.name.as_slice()) {
        } else {
            return Error::make_malformed("section header has a non-UTF-8 name".to_owned());
        }
        if self.raw_data_size % optional_header.file_alignment != 0 {
            return Error::make_malformed("section header has an invalid size of raw data".to_owned());
        }
        if self.raw_data_address % optional_header.file_alignment != 0 {
            return Error::make_malformed(
                "section header has an invalid address of raw data".to_owned(),
            );
        }
        if (self.virtual_size == 0 && self.raw_data_size == 0) || (self.virtual_address == 0
            && self.raw_data_address == 0) {
            return Error::make_malformed("section header has an invalid size or address".to_owned());
        }
        Ok(self)
    }
}

impl FromBytes for SectionHeader {
    open spec fn spec_size() -> int {
        40
    }

    open spec fn spec_align() -> int {
        4
    }

    open spec fn decodes_from(self, s: Seq<u8>, p: int) -> bool {
        spec_section_header_decodes(self, s, p)
    }

    fn exec_size() -> usize {
        40
    }

    fn exec_align() -> usize {
        4
    }

    fn decode_at(bytes: &[u8], p: usize) -> (r: Self)
    {
        let n = bytes.len();
        let ghost s = bytes@;
        let mut name: [u8; 8] = [0u8; 8];
        let mut i: usize = 0;
        while i < 8
            invariant
                p + 40 <= s.len(),
                s.len() <= usize::MAX,
                s == bytes@,
                i <= 8,
                forall|j: int| 0 <= j < i ==> name@[j] == s[p + j],
            decreases 8 - i,
        {
            name[i] = read_u8_le(bytes, p + i);
            i = i + 1;
        }
        let r = SectionHeader {
            name,
            virtual_size: read_u32_le(bytes, p + 8),
            virtual_address: read_u32_le(bytes, p + 12),
            raw_data_size: read_u32_le(bytes, p + 16),
            raw_data_address: read_u32_le(bytes, p + 20),
            ptr_to_relocations: read_u32_le(bytes, p + 24),
            ptr_to_linenumbers: read_u32_le(bytes, p + 28),
            num_of_relocations: read_u16_le(bytes, p + 32),
            num_of_linenumbers: read_u16_le(bytes, p + 34),
            characteristics: read_u32_le(bytes, p + 36),
        };
        proof {
            assert(r.name@ =~= s.subrange(p as int, p + 8));
        }
        r
    }
}

} // verus!
