//! Bounds-checked, alignment-aware typed reads over a borrowed byte slice,
//! with an optional relative base for RVA addressing.

use vstd::prelude::*;
use vstd::bytes::{
    spec_u16_from_le_bytes, spec_u32_from_le_bytes, spec_u64_from_le_bytes, u16_from_le_bytes,
    u32_from_le_bytes, u64_from_le_bytes,
};
use vstd::slice::{slice_index_get, slice_subrange};
use vstd::string::StringSliceAdditionalSpecFns;
use vstd::utf8::valid_utf8;

use crate::error::Error;

verus! {

/// The byte at position `p` of `s`.
pub open spec fn u8_at(s: Seq<u8>, p: int) -> u8 {
    s[p]
}

/// The little-endian `u16` whose bytes sit at `[p, p + 2)` of `s`.
pub open spec fn u16_at(s: Seq<u8>, p: int) -> u16 {
    spec_u16_from_le_bytes(s.subrange(p, p + 2))
}

/// The little-endian `u32` whose bytes sit at `[p, p + 4)` of `s`.
pub open spec fn u32_at(s: Seq<u8>, p: int) -> u32 {
    spec_u32_from_le_bytes(s.subrange(p, p + 4))
}

/// The little-endian `u64` whose bytes sit at `[p, p + 8)` of `s`.
pub open spec fn u64_at(s: Seq<u8>, p: int) -> u64 {
    spec_u64_from_le_bytes(s.subrange(p, p + 8))
}

/// Reads the byte at `p`.
pub(crate) fn read_u8_le(bytes: &[u8], p: usize) -> (r: u8)
    requires
        p < bytes@.len(),
    ensures
        r == u8_at(bytes@, p as int),
{
    *slice_index_get(bytes, p)
}

/// Reads the little-endian `u16` at `p`.
pub(crate) fn read_u16_le(bytes: &[u8], p: usize) -> (r: u16)
    requires
        p + 2 <= bytes@.len(),
    ensures
        r == u16_at(bytes@, p as int),
{
    let n = bytes.len();
    u16_from_le_bytes(slice_subrange(bytes, p, p + 2))
}

/// Reads the little-endian `u32` at `p`.
pub(crate) fn read_u32_le(bytes: &[u8], p: usize) -> (r: u32)
    requires
        p + 4 <= bytes@.len(),
    ensures
        r == u32_at(bytes@, p as int),
{
    let n = bytes.len();
    u32_from_le_bytes(slice_subrange(bytes, p, p + 4))
}

/// Reads the little-endian `u64` at `p`.
pub(crate) fn read_u64_le(bytes: &[u8], p: usize) -> (r: u64)
    requires
        p + 8 <= bytes@.len(),
    ensures
        r == u64_at(bytes@, p as int),
{
    let n = bytes.len();
    u64_from_le_bytes(slice_subrange(bytes, p, p + 8))
}

/// What a checked typed read of `T` at position `p` of `s` returns: the
/// decoded record when `[p, p + size)` is in bounds and `p` is aligned,
/// `InsufficientBuffer` when out of bounds, `Misaligned` otherwise.
pub open spec fn from_bytes_post<T: FromBytes>(s: Seq<u8>, p: int, r: Result<T, Error>) -> bool {
    &&& (r == Result::<T, Error>::Err(Error::InsufficientBuffer) <==> p + T::spec_size() > s.len())
    &&& (r == Result::<T, Error>::Err(Error::Misaligned) <==> p + T::spec_size() <= s.len()
        && p % T::spec_align() != 0)
    &&& (r is Ok <==> p + T::spec_size() <= s.len() && p % T::spec_align() == 0)
    &&& (r is Ok ==> (r->Ok_0).decodes_from(s, p))
}

/// A fixed-layout record that can be decoded from little-endian bytes.
pub trait FromBytes: Sized {
    /// Size in bytes of the on-disk layout.
    spec fn spec_size() -> int;

    /// Alignment a typed read of this record must respect, relative to the
    /// start of the backing slice.
    spec fn spec_align() -> int;

    /// Whether `self` is the record whose on-disk bytes sit at `[p, p + size)`
    /// of `s`.
    spec fn decodes_from(self, s: Seq<u8>, p: int) -> bool;

    /// The record size, as a runtime value.
    fn exec_size() -> (n: usize)
        ensures
            n == Self::spec_size(),
            0 < n,
    ;

    /// The record alignment, as a runtime value.
    fn exec_align() -> (n: usize)
        ensures
            n == Self::spec_align(),
            0 < n,
    ;

    /// Decodes the record at `p`, the bounds having been checked already.
    fn decode_at(bytes: &[u8], p: usize) -> (r: Self)
        requires
            p + Self::spec_size() <= bytes@.len(),
        ensures
            r.decodes_from(bytes@, p as int),
    ;

    /// Bounds- and alignment-checked decode of the record at `p`.
    fn from_bytes(bytes: &[u8], p: usize) -> (r: Result<Self, Error>)
        ensures
            r == Result::<Self, Error>::Err(Error::InsufficientBuffer) <==> p + Self::spec_size()
                > bytes@.len(),
            r == Result::<Self, Error>::Err(Error::Misaligned) <==> p + Self::spec_size()
                <= bytes@.len() && p as int % Self::spec_align() != 0,
            r is Ok <==> p + Self::spec_size() <= bytes@.len() && p as int % Self::spec_align()
                == 0,
            r is Ok ==> (r->Ok_0).decodes_from(bytes@, p as int),
    {
        let size = Self::exec_size();
        if bytes.len() < size || p > bytes.len() - size {
            Err(Error::InsufficientBuffer)
        } else if p % Self::exec_align() != 0 {
            Err(Error::Misaligned)
        } else {
            Ok(Self::decode_at(bytes, p))
        }
    }
}

impl FromBytes for u8 {
    open spec fn spec_size() -> int {
        1
    }

    open spec fn spec_align() -> int {
        1
    }

    open spec fn decodes_from(self, s: Seq<u8>, p: int) -> bool {
        self == u8_at(s, p)
    }

    fn exec_size() -> usize {
        1
    }

    fn exec_align() -> usize {
        1
    }

    fn decode_at(bytes: &[u8], p: usize) -> Self {
        read_u8_le(bytes, p)
    }
}

impl FromBytes for u16 {
    open spec fn spec_size() -> int {
        2
    }

    open spec fn spec_align() -> int {
        2
    }

    open spec fn decodes_from(self, s: Seq<u8>, p: int) -> bool {
        self == u16_at(s, p)
    }

    fn exec_size() -> usize {
        2
    }

    fn exec_align() -> usize {
        2
    }

    fn decode_at(bytes: &[u8], p: usize) -> Self {
        read_u16_le(bytes, p)
    }
}

impl FromBytes for u32 {
    open spec fn spec_size() -> int {
        4
    }

    open spec fn spec_align() -> int {
        4
    }

    open spec fn decodes_from(self, s: Seq<u8>, p: int) -> bool {
        self == u32_at(s, p)
    }

    fn exec_size() -> usize {
        4
    }

    fn exec_align() -> usize {
        4
    }

    fn decode_at(bytes: &[u8], p: usize) -> Self {
        read_u32_le(bytes, p)
    }
}

impl FromBytes for u64 {
    open spec fn spec_size() -> int {
        8
    }

    open spec fn spec_align() -> int {
        8
    }

    open spec fn decodes_from(self, s: Seq<u8>, p: int) -> bool {
        self == u64_at(s, p)
    }

    fn exec_size() -> usize {
        8
    }

    fn exec_align() -> usize {
        8
    }

    fn decode_at(bytes: &[u8], p: usize) -> Self {
        read_u64_le(bytes, p)
    }
}

/// Position to which a [`ByteReader`] advances its cursor.
pub enum SkipPos {
    /// Offset added to the current cursor.
    Cur(usize),
    /// Address resolved against the relative base set with
    /// [`ByteReader::new_with_rel`].
    Rel(usize),
}

/// Interface to safely read fixed-layout records from a borrowed `u8` slice.
///
/// The reader keeps a cursor into the slice and, optionally, a relative base:
/// the address in virtual-address space that byte zero of the slice
/// corresponds to. Reads never panic; a read that would leave the slice
/// reports `InsufficientBuffer` and a read at a position not aligned for the
/// record reports `Misaligned`.
pub struct ByteReader<'a> {
    bytes: &'a [u8],
    pos: usize,
    rel_pos: Option<usize>,
}

impl<'a> ByteReader<'a> {
    /// The bytes the reader ranges over.
    pub closed spec fn buf(self) -> Seq<u8> {
        self.bytes@
    }

    /// The current cursor.
    pub closed spec fn cursor(self) -> int {
        self.pos as int
    }

    /// Whether a relative base is set.
    pub closed spec fn has_base(self) -> bool {
        self.rel_pos is Some
    }

    /// The relative base; zero when none is set.
    pub closed spec fn base(self) -> int {
        match self.rel_pos {
            Some(b) => b as int,
            None => 0,
        }
    }

    /// Where the cursor stands after `skip(p)`: the requested position,
    /// clamped to the slice length (a cursor at or past the end makes every
    /// later read report `InsufficientBuffer`).
    pub open spec fn skipped_cursor(self, p: SkipPos) -> int {
        let len = self.buf().len() as int;
        match p {
            SkipPos::Cur(v) => if self.cursor() + v <= len {
                self.cursor() + v
            } else {
                len
            },
            SkipPos::Rel(v) => if self.base() <= v && v - self.base() <= len {
                v - self.base()
            } else {
                len
            },
        }
    }

    /// Creates a reader over `bytes` with no relative base.
    pub fn new(bytes: &'a [u8]) -> (r: Self)
        ensures
            r.buf() == bytes@,
            r.cursor() == 0,
            !r.has_base(),
            r.base() == 0,
    {
        Self { bytes, pos: 0, rel_pos: None }
    }

    /// Creates a reader over `bytes` whose relative addresses are resolved
    /// against `pos`.
    pub fn new_with_rel(bytes: &'a [u8], pos: usize) -> (r: Self)
        ensures
            r.buf() == bytes@,
            r.cursor() == 0,
            r.has_base(),
            r.base() == pos as int,
    {
        Self { bytes, pos: 0, rel_pos: Some(pos) }
    }

    /// Returns the bytes of this reader.
    pub fn bytes(&self) -> (r: &'a [u8])
        ensures
            r@ == self.buf(),
    {
        self.bytes
    }

    /// Returns the bytes from the cursor to the end of the slice.
    pub fn remaining_bytes(&self) -> (r: &'a [u8])
        requires
            self.cursor() <= self.buf().len(),
        ensures
            r@ == self.buf().subrange(self.cursor(), self.buf().len() as int),
    {
        slice_subrange(self.bytes, self.pos, self.bytes.len())
    }

    /// Returns the bytes from the slice position corresponding to address
    /// `pos` to the end of the slice, or `InsufficientBuffer` when that
    /// position lies outside the slice.
    pub fn bytes_at(&self, pos: usize) -> (r: Result<&'a [u8], Error>)
        ensures
            r is Ok <==> self.base() <= pos && pos - self.base() <= self.buf().len(),
            r is Ok ==> (r->Ok_0)@ == self.buf().subrange(
                pos - self.base(),
                self.buf().len() as int,
            ),
            r is Err ==> r->Err_0 is InsufficientBuffer,
    {
        let base = match self.rel_pos {
            Some(b) => b,
            None => 0,
        };
        if pos < base {
            return Err(Error::InsufficientBuffer);
        }
        let idx = pos - base;
        if idx > self.bytes.len() {
            return Err(Error::InsufficientBuffer);
        }
        Ok(slice_subrange(self.bytes, idx, self.bytes.len()))
    }

    /// Returns the relative base set by [`ByteReader::new_with_rel`], if any.
    pub fn rel_pos(&self) -> (r: Option<usize>)
        ensures
            match r {
                Some(b) => self.has_base() && b as int == self.base(),
                None => !self.has_base() && self.base() == 0,
            },
    {
        self.rel_pos
    }

    /// Converts the address `pos` to a position within the slice.
    pub fn pos_to_rel(&self, pos: usize) -> (r: usize)
        requires
            self.base() <= pos,
        ensures
            r as int == pos - self.base(),
    {
        let base = match self.rel_pos {
            Some(b) => b,
            None => 0,
        };
        pos - base
    }

    /// Advances the cursor to the requested position; a position outside the
    /// slice leaves the cursor at the end, where every read reports
    /// `InsufficientBuffer`.
    pub fn skip(&mut self, pos: SkipPos)
        ensures
            final(self).buf() == old(self).buf(),
            final(self).has_base() == old(self).has_base(),
            final(self).base() == old(self).base(),
            final(self).cursor() == old(self).skipped_cursor(pos),
    {
        match pos {
            SkipPos::Cur(v) => {
                if self.pos <= self.bytes.len() && v <= self.bytes.len() - self.pos {
                    self.pos = self.pos + v;
                } else {
                    self.pos = self.bytes.len();
                }
            },
            SkipPos::Rel(v) => {
                let base = match self.rel_pos {
                    Some(b) => b,
                    None => 0,
                };
                if v >= base && v - base <= self.bytes.len() {
                    self.pos = v - base;
                } else {
                    self.pos = self.bytes.len();
                }
            },
        }
    }

    /// Reads a record of type `T` at the cursor, advancing the cursor past it
    /// on success.
    pub fn read<T: FromBytes>(&mut self) -> (r: Result<T, Error>)
        ensures
            final(self).buf() == old(self).buf(),
            final(self).has_base() == old(self).has_base(),
            final(self).base() == old(self).base(),
            from_bytes_post::<T>(old(self).buf(), old(self).cursor(), r),
            r is Ok ==> final(self).cursor() == old(self).cursor() + T::spec_size(),
            r is Err ==> final(self).cursor() == old(self).cursor(),
    {
        match T::from_bytes(self.bytes, self.pos) {
            Ok(v) => {
                let n = self.bytes.len();
                self.pos = self.pos + T::exec_size();
                Ok(v)
            },
            Err(e) => Err(e),
        }
    }

    /// Reads a record of type `T` at the slice position corresponding to
    /// address `pos`, without moving the cursor.
    pub fn read_at<T: FromBytes>(&self, pos: usize) -> (r: Result<T, Error>)
        ensures
            self.base() <= pos ==> from_bytes_post::<T>(self.buf(), pos - self.base(), r),
            pos < self.base() ==> r == Result::<T, Error>::Err(Error::InsufficientBuffer),
    {
        let base = match self.rel_pos {
            Some(b) => b,
            None => 0,
        };
        if pos < base {
            return Err(Error::InsufficientBuffer);
        }
        T::from_bytes(self.bytes, pos - base)
    }

    /// Returns the `n` bytes at the cursor, or `InsufficientBuffer` when
    /// fewer remain.
    pub(crate) fn sub_slice(&self, n: usize) -> (r: Result<&'a [u8], Error>)
        ensures
            r is Ok <==> self.cursor() + n <= self.buf().len(),
            r is Ok ==> (r->Ok_0)@ == self.buf().subrange(self.cursor(), self.cursor() + n),
            r is Err ==> r->Err_0 is InsufficientBuffer,
    {
        if self.pos <= self.bytes.len() && n <= self.bytes.len() - self.pos {
            Ok(slice_subrange(self.bytes, self.pos, self.pos + n))
        } else {
            Err(Error::InsufficientBuffer)
        }
    }
}

/// Whether `i` indexes the first NUL byte of `s`.
pub open spec fn is_first_nul(s: Seq<u8>, i: int) -> bool {
    0 <= i < s.len() && s[i] == 0 && (forall|j: int| 0 <= j < i ==> s[j] != 0)
}

/// Whether `s` begins with a NUL-terminated string of valid UTF-8.
pub open spec fn c_str_decodable(s: Seq<u8>) -> bool {
    exists|i: int| is_first_nul(s, i) && valid_utf8(s.subrange(0, i))
}

/// The index of the first NUL byte of `s`; meaningful only when one
/// exists.
pub open spec fn spec_first_nul_at(s: Seq<u8>) -> int {
    choose|i: int| is_first_nul(s, i)
}

/// A sequence has at most one first NUL.
pub proof fn lemma_first_nul_unique(s: Seq<u8>, i: int, j: int)
    requires
        is_first_nul(s, i),
        is_first_nul(s, j),
    ensures
        i == j,
{
    if i < j {
        assert(s[i] != 0);
    }
    if j < i {
        assert(s[j] != 0);
    }
}

/// Relies on `core::str::from_utf8`: it succeeds exactly on valid UTF-8
/// input, and the returned string slice views the given bytes.
#[verifier::external_body]
pub(crate) fn try_str_from_utf8(bytes: &[u8]) -> (r: Option<&str>)
    ensures
        r is Some <==> valid_utf8(bytes@),
        r is Some ==> (r->Some_0).spec_bytes() == bytes@,
{
    core::str::from_utf8(bytes).ok()
}

/// Checks whether `bytes` hold valid UTF-8.
pub(crate) fn slice_is_utf8(bytes: &[u8]) -> (r: bool)
    ensures
        r == valid_utf8(bytes@),
{
    match try_str_from_utf8(bytes) {
        Some(_) => true,
        None => false,
    }
}

/// Creates a `str` slice from the NUL-terminated bytes at the head of
/// `bytes`.
///
/// Returns `Malformed` when no NUL terminator exists or the bytes before it
/// are not valid UTF-8.
pub fn str_from_bytes(bytes: &[u8]) -> (r: Result<&str, Error>)
    ensures
        r is Ok <==> c_str_decodable(bytes@),
        r is Ok ==> is_first_nul(bytes@, spec_first_nul_at(bytes@)) && (r->Ok_0).spec_bytes()
            == bytes@.subrange(0, spec_first_nul_at(bytes@)),
        r is Err ==> r->Err_0 is Malformed,
{
    let mut i: usize = 0;
    while i < bytes.len() && *slice_index_get(bytes, i) != 0
        invariant
            0 <= i <= bytes@.len(),
            forall|j: int| 0 <= j < i ==> bytes@[j] != 0,
        decreases bytes@.len() - i,
    {
        i = i + 1;
    }
    if i == bytes.len() {
        proof {
            if c_str_decodable(bytes@) {
                let w = choose|w: int| is_first_nul(bytes@, w) && valid_utf8(
                    bytes@.subrange(0, w),
                );
                assert(bytes@[w] != 0);
            }
        }
        return Error::make_malformed("string is not NUL-terminated".to_owned());
    }
    let prefix = slice_subrange(bytes, 0, i);
    match try_str_from_utf8(prefix) {
        Some(s) => {
            proof {
                assert(is_first_nul(bytes@, i as int));
                assert(exists|w: int| is_first_nul(bytes@, w));
                lemma_first_nul_unique(bytes@, i as int, spec_first_nul_at(bytes@));
            }
            Ok(s)
        },
        None => {
            proof {
                if c_str_decodable(bytes@) {
                    let w = choose|w: int| is_first_nul(bytes@, w) && valid_utf8(
                        bytes@.subrange(0, w),
                    );
                    lemma_first_nul_unique(bytes@, w, i as int);
                }
            }
            Error::make_malformed("string is not valid UTF-8".to_owned())
        },
    }
}

/// Compares two byte slices for equality.
pub(crate) fn bytes_eq(a: &[u8], b: &[u8]) -> (r: bool)
    ensures
        r == (a@ == b@),
{
    if a.len() != b.len() {
        proof {
            assert(a@.len() != b@.len());
        }
        return false;
    }
    let mut i: usize = 0;
    while i < a.len()
        invariant
            0 <= i <= a@.len(),
            a@.len() == b@.len(),
            forall|j: int| 0 <= j < i ==> a@[j] == b@[j],
        decreases a@.len() - i,
    {
        if *slice_index_get(a, i) != *slice_index_get(b, i) {
            proof {
                assert(a@[i as int] != b@[i as int]);
            }
            return false;
        }
        i = i + 1;
    }
    proof {
        assert(a@ =~= b@);
    }
    true
}

} // verus!
