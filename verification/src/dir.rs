//! Data directories of the optional header and the lazy tables read from
//! them.

use vstd::prelude::*;

use crate::mem::u32_at;

verus! {

mod cert;
mod export;
mod import;
mod relocation;

pub use export::{
    lemma_export_step_shape, spec_edt_at, spec_edt_valid, spec_export_name_phase, Export, ExportDirectoryTable,
    ExportTable, ExportValue,
};

pub use import::{
    lemma_import_iteration_deterministic, lemma_import_sentinel, spec_import_dir_at, spec_import_table_step, spec_import_table_step_cursor, Import,
    ImportDirectoryEntry, ImportEntry, ImportModule, ImportTable,
};

pub use cert::{
    lemma_cert_head_at, lemma_cert_iteration_deterministic, spec_align8, spec_cert_head_at, spec_cert_step, spec_cert_step_cursor,
    Certificate, CertificateHead, CertificateTable,
};

pub use relocation::{
    spec_block_step_cursor, spec_block_step_item, spec_reloc_kind_known, spec_reloc_table_step,
    spec_reloc_table_step_cursor, spec_relocation_for, spec_relocation_head_at,
    lemma_reloc_block_shape, lemma_reloc_iteration_deterministic, Relocation, RelocationBlock, RelocationEntry, RelocationHead,
    RelocationTable,
};

/// The sixteen well-known data-directory slots of the optional header, in
/// their on-disk order.
#[derive(Clone, Copy, Debug)]
pub enum DataDirectoryType {
    ExportTable,
    ImportTable,
    ResourceTable,
    ExceptionTable,
    CertificateTable,
    RelocationTable,
    Debug,
    Architecture,
    GlobalPointer,
    TLSTable,
    LoadConfigTable,
    BoundImportTable,
    ImportAddressTable,
    DelayImportDescriptor,
    CLRRuntimeHeader,
    Reserved,
}

impl DataDirectoryType {
    /// The slot this directory occupies in the optional header's directory
    /// array.
    pub open spec fn spec_index(self) -> int {
        match self {
            DataDirectoryType::ExportTable => 0,
            DataDirectoryType::ImportTable => 1,
            DataDirectoryType::ResourceTable => 2,
            DataDirectoryType::ExceptionTable => 3,
            DataDirectoryType::CertificateTable => 4,
            DataDirectoryType::RelocationTable => 5,
            DataDirectoryType::Debug => 6,
            DataDirectoryType::Architecture => 7,
            DataDirectoryType::GlobalPointer => 8,
            DataDirectoryType::TLSTable => 9,
            DataDirectoryType::LoadConfigTable => 10,
            DataDirectoryType::BoundImportTable => 11,
            DataDirectoryType::ImportAddressTable => 12,
            DataDirectoryType::DelayImportDescriptor => 13,
            DataDirectoryType::CLRRuntimeHeader => 14,
            DataDirectoryType::Reserved => 15,
        }
    }

    /// The slot this directory occupies, as a runtime value.
    pub fn index(self) -> (i: usize)
        ensures
            i == self.spec_index(),
            i < 16,
    {
        match self {
            DataDirectoryType::ExportTable => 0,
            DataDirectoryType::ImportTable => 1,
            DataDirectoryType::ResourceTable => 2,
            DataDirectoryType::ExceptionTable => 3,
            DataDirectoryType::CertificateTable => 4,
            DataDirectoryType::RelocationTable => 5,
            DataDirectoryType::Debug => 6,
            DataDirectoryType::Architecture => 7,
            DataDirectoryType::GlobalPointer => 8,
            DataDirectoryType::TLSTable => 9,
            DataDirectoryType::LoadConfigTable => 10,
            DataDirectoryType::BoundImportTable => 11,
            DataDirectoryType::ImportAddressTable => 12,
            DataDirectoryType::DelayImportDescriptor => 13,
            DataDirectoryType::CLRRuntimeHeader => 14,
            DataDirectoryType::Reserved => 15,
        }
    }
}

/// A data-directory descriptor of the optional header: the address of a
/// directory and its size in bytes.
///
/// The address is an RVA for every directory except the certificate table,
/// whose address is a file offset.
#[derive(Clone, Copy, Debug)]
pub struct DataDirectory {
    pub addr: u32,
    pub size: u32,
}

/// The descriptor whose eight on-disk bytes sit at `[p, p + 8)` of `s`.
pub open spec fn spec_data_directory_at(s: Seq<u8>, p: int) -> DataDirectory {
    DataDirectory { addr: u32_at(s, p), size: u32_at(s, p + 4) }
}

impl DataDirectory {
    /// Whether the directory's address range `[addr, addr + size)` contains
    /// `a`.
    pub open spec fn spec_contains_addr(self, a: int) -> bool {
        self.addr <= a < self.addr + self.size
    }

    /// Checks if the specified RVA is within the bounds of this directory.
    pub fn contains_addr(&self, addr: u32) -> (r: bool)
        ensures
            r == self.spec_contains_addr(addr as int),
    {
        addr >= self.addr && addr - self.addr < self.size
    }
}

/// A lazy table read out of the byte window a data directory resolves to.
pub trait DataDirectoryTable<'a>: Sized {
    /// Whether `self` is the initial table state over the window `bytes`,
    /// described by the directory `dir`.
    spec fn inited(self, bytes: Seq<u8>, dir: DataDirectory) -> bool;

    /// Creates the table over `bytes`, the window resolved from `dir`.
    fn new(bytes: &'a [u8], dir: &'a DataDirectory) -> (r: Self)
        ensures
            r.inited(bytes@, *dir),
    ;

    /// Returns the directory kind this table is read from.
    fn typ() -> DataDirectoryType;
}

} // verus!
