//! The attribute-certificate table: file-offset addressed, eight-byte
//! aligned records.

use vstd::prelude::*;

use crate::dir::{DataDirectory, DataDirectoryTable, DataDirectoryType};
use crate::error::Error;
use crate::mem::{read_u16_le, read_u32_le, u16_at, u32_at, ByteReader, FromBytes, SkipPos};

verus! {

/// Header of an attribute-certificate record: the record length (header
/// included), the structure revision and the certificate type.
#[derive(Clone, Copy, Debug)]
pub struct CertificateHead {
    length: u32,
    revision: u16,
    typ: u16,
}

impl CertificateHead {
    /// The record length, header included.
    pub closed spec fn spec_length(self) -> u32 {
        self.length
    }

    /// The structure revision.
    pub closed spec fn spec_revision(self) -> u16 {
        self.revision
    }

    /// The certificate type.
    pub closed spec fn spec_typ(self) -> u16 {
        self.typ
    }
}

/// The certificate header whose eight on-disk bytes sit at `[p, p + 8)` of
/// `s`.
pub closed spec fn spec_cert_head_at(s: Seq<u8>, p: int) -> CertificateHead {
    CertificateHead { length: u32_at(s, p), revision: u16_at(s, p + 4), typ: u16_at(s, p + 6) }
}

/// The fields of the certificate header decoded at `p`.
pub proof fn lemma_cert_head_at(s: Seq<u8>, p: int)
    ensures
        spec_cert_head_at(s, p).spec_length() == u32_at(s, p),
        spec_cert_head_at(s, p).spec_revision() == u16_at(s, p + 4),
        spec_cert_head_at(s, p).spec_typ() == u16_at(s, p + 6),
{
}

impl FromBytes for CertificateHead {
    open spec fn spec_size() -> int {
        8
    }

    open spec fn spec_align() -> int {
        4
    }

    open spec fn decodes_from(self, s: Seq<u8>, p: int) -> bool {
        self == spec_cert_head_at(s, p)
    }

    fn exec_size() -> usize {
        8
    }

    fn exec_align() -> usize {
        4
    }

    fn decode_at(bytes: &[u8], p: usize) -> Self {
        let n = bytes.len();
        CertificateHead {
            length: read_u32_le(bytes, p),
            revision: read_u16_le(bytes, p + 4),
            typ: read_u16_le(bytes, p + 6),
        }
    }
}

/// An attribute certificate: its header and a reader over its opaque
/// payload bytes.
pub struct Certificate<'a> {
    head: CertificateHead,
    data: ByteReader<'a>,
}

impl<'a> Certificate<'a> {
    /// The certificate's header.
    pub closed spec fn spec_head(self) -> CertificateHead {
        self.head
    }

    /// The reader over the certificate's payload.
    pub closed spec fn spec_data(self) -> ByteReader<'a> {
        self.data
    }

    /// Creates a certificate over `bytes`, the payload that `head`
    /// describes.
    pub fn new(bytes: &'a [u8], head: &CertificateHead) -> (r: Self)
        ensures
            r.spec_head() == *head,
            r.spec_data().buf() == bytes@,
            r.spec_data().cursor() == 0,
            !r.spec_data().has_base(),
    {
        Self { data: ByteReader::new(bytes), head: *head }
    }

    /// Returns the `revision` field of the certificate header.
    pub fn revision(&self) -> (r: u16)
        ensures
            r == self.spec_head().spec_revision(),
    {
        self.head.revision
    }

    /// Returns the `typ` field of the certificate header.
    pub fn typ(&self) -> (r: u16)
        ensures
            r == self.spec_head().spec_typ(),
    {
        self.head.typ
    }

    /// Returns a reader over the certificate's payload bytes.
    pub fn value(&self) -> (r: &ByteReader<'a>)
        ensures
            *r == self.spec_data(),
    {
        &self.data
    }
}

/// The smallest multiple of eight at or above `x`.
pub open spec fn spec_align8(x: int) -> int {
    ((x + 7) / 8) * 8
}

/// What one step of the certificate-table iterator yields over the
/// directory bytes `s` at cursor `c`: `None` once no further header can be
/// read, otherwise the record header and its payload bytes, or the error
/// that reading them raised.
pub open spec fn spec_cert_step(s: Seq<u8>, c: int) -> Option<
    Result<(CertificateHead, Seq<u8>), Error>,
> {
    if c + 8 > s.len() {
        None
    } else if c % 4 != 0 {
        Some(Err(Error::Misaligned))
    } else {
        let h = spec_cert_head_at(s, c);
        if h.spec_length() < 8 {
            Some(Err(Error::InsufficientBuffer))
        } else if c + h.spec_length() > s.len() {
            Some(Err(Error::InsufficientBuffer))
        } else {
            Some(Ok((h, s.subrange(c + 8, c + h.spec_length()))))
        }
    }
}

/// The table cursor after one step: past the record, rounded up to the
/// next eight-byte boundary, clamped to the end of the bytes.
pub open spec fn spec_cert_step_cursor(s: Seq<u8>, c: int) -> int {
    if c + 8 > s.len() {
        c
    } else if c % 4 != 0 {
        c
    } else {
        let h = spec_cert_head_at(s, c);
        if h.spec_length() < 8 {
            c + 8
        } else if c + h.spec_length() > s.len() {
            c + 8
        } else if c + spec_align8(h.spec_length() as int) <= s.len() {
            c + spec_align8(h.spec_length() as int)
        } else {
            s.len() as int
        }
    }
}

/// What the certificate-table iterator yields is a function of its window
/// and cursor alone: iterating the directory twice on the same view
/// produces identical certificate sequences, step by step.
pub proof fn lemma_cert_iteration_deterministic(s1: Seq<u8>, c1: int, s2: Seq<u8>, c2: int)
    requires
        s1 == s2,
        c1 == c2,
    ensures
        spec_cert_step(s1, c1) == spec_cert_step(s2, c2),
        spec_cert_step_cursor(s1, c1) == spec_cert_step_cursor(s2, c2),
{
}

/// Iterator over the certificate table of an image.
pub struct CertificateTable<'a> {
    data: ByteReader<'a>,
}

impl<'a> CertificateTable<'a> {
    /// The reader over the directory's bytes.
    pub closed spec fn spec_data(self) -> ByteReader<'a> {
        self.data
    }

    /// Yields the next certificate: `None` once no further header can be
    /// read, an error item for a record that leaves the directory's bytes.
    pub fn next(&mut self) -> (r: Option<Result<Certificate<'a>, Error>>)
        ensures
            final(self).spec_data().buf() == old(self).spec_data().buf(),
            final(self).spec_data().has_base() == old(self).spec_data().has_base(),
            final(self).spec_data().base() == old(self).spec_data().base(),
            final(self).spec_data().cursor() == spec_cert_step_cursor(
                old(self).spec_data().buf(),
                old(self).spec_data().cursor(),
            ),
            match spec_cert_step(old(self).spec_data().buf(), old(self).spec_data().cursor()) {
                None => r is None,
                Some(Err(e)) => r is Some && r->Some_0 is Err && r->Some_0->Err_0 == e,
                Some(Ok((h, payload))) => {
                    &&& r is Some
                    &&& r->Some_0 is Ok
                    &&& (r->Some_0->Ok_0).spec_head() == h
                    &&& (r->Some_0->Ok_0).spec_data().buf() == payload
                    &&& (r->Some_0->Ok_0).spec_data().cursor() == 0
                    &&& !(r->Some_0->Ok_0).spec_data().has_base()
                },
            },
    {
        match self.data.read::<CertificateHead>() {
            Ok(head) => {
                if head.length < 8 {
                    return Some(Err(Error::InsufficientBuffer));
                }
                let payload_len = (head.length - 8) as usize;
                match self.data.sub_slice(payload_len) {
                    Ok(payload) => {
                        let pad = ((8 - (head.length % 8)) % 8) as usize;
                        self.data.skip(SkipPos::Cur(payload_len));
                        self.data.skip(SkipPos::Cur(pad));
                        Some(Ok(Certificate::new(payload, &head)))
                    },
                    Err(e) => Some(Err(e)),
                }
            },
            Err(Error::InsufficientBuffer) => None,
            Err(e) => Some(Err(e)),
        }
    }
}

impl<'a> DataDirectoryTable<'a> for CertificateTable<'a> {
    open spec fn inited(self, bytes: Seq<u8>, dir: DataDirectory) -> bool {
        &&& self.spec_data().buf() == bytes
        &&& self.spec_data().cursor() == 0
        &&& !self.spec_data().has_base()
    }

    fn new(bytes: &'a [u8], dir: &'a DataDirectory) -> Self {
        Self { data: ByteReader::new(bytes) }
    }

    fn typ() -> DataDirectoryType {
        DataDirectoryType::CertificateTable
    }
}

} // verus!
