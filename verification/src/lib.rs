//! Zero-copy, read-only parser for PE32+ image files.
//!
//! Given a byte buffer holding a complete PE32+ image, the library exposes a
//! structured view: file-level headers, the section table, and lazy iterators
//! over the export, import, base-relocation and attribute-certificate
//! directories.

pub mod dir;
pub mod error;
pub mod file;
pub mod header;
pub mod mem;
pub mod section;
