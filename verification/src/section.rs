//! A section of a PE32+ image: its header and a reader over its raw data.

use vstd::prelude::*;
use vstd::slice::slice_subrange;
use vstd::string::StringSliceAdditionalSpecFns;
use vstd::utf8::valid_utf8;

use crate::error::Error;
use crate::file::PeAddr;
use crate::header::{SectionFlags, SectionHeader};
use crate::mem::{bytes_eq, try_str_from_utf8, ByteReader};

verus! {

/// Whether the range `[start, start + size)` contains `a`, over the
/// unbounded integers.
pub open spec fn spec_range_contains(start: int, size: int, a: int) -> bool {
    start <= a < start + size
}

/// Whether the address `a` falls in the section range the header names for
/// its kind: the virtual range for an RVA, the raw-data range for a file
/// pointer.
pub open spec fn spec_header_contains_addr(h: SectionHeader, a: PeAddr) -> bool {
    match a {
        PeAddr::Rva(v) => spec_range_contains(h.virtual_address as int, h.virtual_size as int, v as int),
        PeAddr::FilePtr(v) => spec_range_contains(
            h.raw_data_address as int,
            h.raw_data_size as int,
            v as int,
        ),
    }
}

/// Section of a PE32+ file: a validated header and, unless the section is
/// empty, a reader over its raw on-disk bytes whose relative base is the
/// section's virtual address.
pub struct Section<'a> {
    header: SectionHeader,
    data: Option<ByteReader<'a>>,
}

impl<'a> Section<'a> {
    /// The section's header.
    pub closed spec fn spec_header(self) -> SectionHeader {
        self.header
    }

    /// The reader over the section's raw data, absent when the section is
    /// empty.
    pub closed spec fn spec_data(self) -> Option<ByteReader<'a>> {
        self.data
    }

    /// Whether `self` is the section that `parse` builds from `header` over
    /// the image bytes `s`.
    pub open spec fn is_parse_of(self, s: Seq<u8>, header: SectionHeader) -> bool {
        &&& self.spec_header() == header
        &&& if header.raw_data_size == 0 {
            self.spec_data() is None
        } else {
            &&& self.spec_data() is Some
            &&& {
                let rd = self.spec_data()->Some_0;
                &&& rd.buf() == s.subrange(
                    header.raw_data_address as int,
                    header.raw_data_address + header.raw_data_size,
                )
                &&& rd.cursor() == 0
                &&& rd.has_base()
                &&& rd.base() == header.virtual_address as int
            }
        }
    }

    /// Whether the section backs address lookups for `addr`: it is not
    /// empty and its range for the address kind contains `addr`.
    pub open spec fn spec_match_addr(self, addr: PeAddr) -> bool {
        &&& self.spec_data() is Some
        &&& spec_header_contains_addr(self.spec_header(), addr)
    }

    /// Creates the section described by `header` out of the image bytes.
    ///
    /// A section whose `raw_data_size` is zero is empty; otherwise its raw
    /// bytes are `[raw_data_address, raw_data_address + raw_data_size)` of
    /// the image, and `InsufficientBuffer` is reported when that range
    /// leaves the image.
    pub fn parse(bytes: &'a [u8], header: &SectionHeader) -> (r: Result<Self, Error>)
        ensures
            r is Ok <==> (header.raw_data_size == 0 || header.raw_data_address
                + header.raw_data_size <= bytes@.len()),
            r is Ok ==> (r->Ok_0).is_parse_of(bytes@, *header),
            r is Err ==> r->Err_0 is InsufficientBuffer,
    {
        let n = bytes.len();
        let data = if header.raw_data_size > 0 {
            let start = header.raw_data_address as usize;
            let size = header.raw_data_size as usize;
            if start > n || size > n - start {
                return Err(Error::InsufficientBuffer);
            }
            Some(
                ByteReader::new_with_rel(
                    slice_subrange(bytes, start, start + size),
                    header.virtual_address as usize,
                ),
            )
        } else {
            None
        };
        Ok(Section { header: *header, data })
    }

    /// Returns a reference to the header of this section.
    pub fn header(&self) -> (r: &SectionHeader)
        ensures
            *r == self.spec_header(),
    {
        &self.header
    }

    /// Returns a reference to the raw-data reader of this section.
    pub fn data(&self) -> (r: &Option<ByteReader<'a>>)
        ensures
            *r == self.spec_data(),
    {
        &self.data
    }

    /// Returns the name of this section, decoded from the eight name bytes
    /// of its header; validation has established that they are UTF-8.
    pub fn name(&self) -> (r: &str)
        requires
            valid_utf8(self.spec_header().name@),
        ensures
            r.spec_bytes() == self.spec_header().name@,
    {
        match try_str_from_utf8(self.header.name.as_slice()) {
            Some(s) => s,
            None => vstd::pervasive::unreached(),
        }
    }

    /// Checks if the section's name bytes equal the UTF-8 encoding of
    /// `name`.
    pub fn name_is(&self, name: &str) -> (r: bool)
        ensures
            r == (self.spec_header().name@ == name.spec_bytes()),
    {
        bytes_eq(self.header.name.as_slice(), name.as_bytes())
    }

    /// Checks if the specified flag is contained in the header's
    /// characteristics.
    pub fn has_flag(&self, flag: SectionFlags) -> (r: bool)
        ensures
            r == ((self.spec_header().characteristics & flag.spec_value()) != 0),
    {
        self.header.characteristics & flag.value() != 0
    }

    /// Checks if the section has no raw data.
    pub fn empty(&self) -> (r: bool)
        ensures
            r == (self.spec_data() is None),
    {
        self.data.is_none()
    }

    /// Checks if the specified address is contained within the section's
    /// range for the address kind.
    pub fn contains_addr(&self, addr: PeAddr) -> (r: bool)
        ensures
            r == spec_header_contains_addr(self.spec_header(), addr),
    {
        match addr {
            PeAddr::Rva(rva) => rva >= self.header.virtual_address && rva
                - self.header.virtual_address < self.header.virtual_size,
            PeAddr::FilePtr(ptr) => ptr >= self.header.raw_data_address && ptr
                - self.header.raw_data_address < self.header.raw_data_size,
        }
    }
}

} // verus!
