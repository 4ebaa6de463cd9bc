use peview::dir::{DataDirectoryType, ExportValue, Import, Relocation};
use peview::error::Error;
use peview::file::{PeAddr, PeView};

fn w16(b: &mut Vec<u8>, off: usize, v: u16) {
    b[off] = v as u8;
    b[off + 1] = (v >> 8) as u8;
}

fn w32(b: &mut Vec<u8>, off: usize, v: u32) {
    b[off] = v as u8;
    b[off + 1] = (v >> 8) as u8;
    b[off + 2] = (v >> 16) as u8;
    b[off + 3] = (v >> 24) as u8;
}

fn w64(b: &mut Vec<u8>, off: usize, v: u64) {
    w32(b, off, v as u32);
    w32(b, off + 4, (v >> 32) as u32);
}

fn wbytes(b: &mut Vec<u8>, off: usize, v: &[u8]) {
    b[off..off + v.len()].copy_from_slice(v);
}

const LFANEW: usize = 64;
const OPT: usize = LFANEW + 24;
const DIRS: usize = OPT + 112;
const SECTS: usize = LFANEW + 24 + 240;
const SEC1_RAW: usize = 0x400;
const SEC2_RAW: usize = 0x600;

/// A minimal, valid PE32+ image: two sections, no data directories.
fn base_image() -> Vec<u8> {
    let mut b = vec![0u8; 0x800];
    // DOS header
    w16(&mut b, 0, 0x5A4D);
    w32(&mut b, 60, LFANEW as u32);
    // NT signature
    w32(&mut b, LFANEW, 0x0000_4550);
    // file header
    w16(&mut b, LFANEW + 4, 0x8664); // machine
    w16(&mut b, LFANEW + 6, 2); // number of sections
    w16(&mut b, LFANEW + 20, 240); // size of optional header
    w16(&mut b, LFANEW + 22, 0x22); // characteristics
    // optional header
    w16(&mut b, OPT, 0x20B); // magic
    w32(&mut b, OPT + 16, 0x1000); // entry point
    w64(&mut b, OPT + 24, 0x1_4000_0000); // image base
    w32(&mut b, OPT + 32, 0x1000); // section alignment
    w32(&mut b, OPT + 36, 0x200); // file alignment
    w32(&mut b, OPT + 56, 0x3000); // size of image
    w32(&mut b, OPT + 60, 0x400); // size of headers
    w32(&mut b, OPT + 108, 16); // number of rva and sizes
    // section 1: .text, virtual 0x1000..0x2000, raw 0x400..0x600
    wbytes(&mut b, SECTS, b".text\0\0\0");
    w32(&mut b, SECTS + 8, 0x1000); // virtual size
    w32(&mut b, SECTS + 12, 0x1000); // virtual address
    w32(&mut b, SECTS + 16, 0x200); // raw size
    w32(&mut b, SECTS + 20, SEC1_RAW as u32); // raw address
    w32(&mut b, SECTS + 36, 0x6000_0020); // characteristics
    // section 2: .rdata, virtual 0x2000..0x3000, raw 0x600..0x800
    wbytes(&mut b, SECTS + 40, b".rdata\0\0");
    w32(&mut b, SECTS + 48, 0x1000);
    w32(&mut b, SECTS + 52, 0x2000);
    w32(&mut b, SECTS + 56, 0x200);
    w32(&mut b, SECTS + 60, SEC2_RAW as u32);
    w32(&mut b, SECTS + 76, 0x4000_0040);
    b
}

#[test]
fn it_parses_a_minimal_image() {
    let b = base_image();
    let pe = PeView::parse(&b).unwrap();
    assert_eq!(pe.dos_header().e_magic, 0x5A4D);
    assert_eq!(pe.dos_header().e_lfanew, 64);
    assert_eq!(pe.nt_header().signature, 0x0000_4550);
    assert_eq!(pe.nt_header().file_header.machine, 0x8664);
    assert_eq!(pe.nt_header().optional_header.magic, 0x020B);
    assert_eq!(pe.sections().len(), 2);
}

#[test]
fn it_finds_sections_by_address() {
    let b = base_image();
    let pe = PeView::parse(&b).unwrap();
    let s1 = pe.section_by_addr(PeAddr::Rva(0x1500)).unwrap();
    assert_eq!(s1.header().virtual_address, 0x1000);
    let s2 = pe.section_by_addr(PeAddr::FilePtr(0x650)).unwrap();
    assert_eq!(s2.header().virtual_address, 0x2000);
    assert!(pe.section_by_addr(PeAddr::Rva(0x4000)).is_none());
    assert!(pe.section_by_addr(PeAddr::FilePtr(0x100)).is_none());
}

#[test]
fn it_returns_the_first_matching_section() {
    let mut b = base_image();
    // let .text overlap .rdata's virtual range
    w32(&mut b, SECTS + 8, 0x2000);
    let pe = PeView::parse(&b).unwrap();
    let s = pe.section_by_addr(PeAddr::Rva(0x2100)).unwrap();
    assert_eq!(s.header().virtual_address, 0x1000);
}

#[test]
fn it_finds_sections_by_name() {
    let b = base_image();
    let pe = PeView::parse(&b).unwrap();
    let s = pe.section_by_name(".text\0\0\0").unwrap();
    assert_eq!(s.header().virtual_address, 0x1000);
    assert_eq!(s.name(), ".text\0\0\0");
    assert!(pe.section_by_name(".text").is_none());
    assert!(pe.section_by_name(".bss\0\0\0\0").is_none());
}

#[test]
fn it_checks_file_flags() {
    let b = base_image();
    let pe = PeView::parse(&b).unwrap();
    assert!(pe.has_flag(peview::header::FileFlags::ExecutableImage));
    assert!(pe.has_flag(peview::header::FileFlags::LargeAddress));
    assert!(!pe.has_flag(peview::header::FileFlags::Dll));
}

#[test]
fn it_rejects_a_bad_dos_magic() {
    let mut b = base_image();
    w16(&mut b, 0, 0x4D5A);
    assert!(matches!(PeView::parse(&b), Err(Error::Malformed(_))));
    // a rejected buffer stays rejected on every further call
    assert!(matches!(PeView::parse(&b), Err(Error::Malformed(_))));
    assert!(matches!(PeView::parse(&b), Err(Error::Malformed(_))));
}

#[test]
fn it_rejects_an_unaligned_lfanew() {
    let mut b = base_image();
    w32(&mut b, 60, 62);
    assert!(matches!(PeView::parse(&b), Err(Error::Malformed(_))));
}

#[test]
fn it_reports_misalignment_of_the_nt_header() {
    let mut b = base_image();
    // four-byte aligned, so the DOS header passes, but not eight-byte
    // aligned as the NT header's layout demands
    w32(&mut b, 60, 60);
    assert!(matches!(PeView::parse(&b), Err(Error::Misaligned)));
}

#[test]
fn it_rejects_a_non_pe32plus_magic() {
    let mut b = base_image();
    w16(&mut b, OPT, 0x10B);
    assert!(matches!(PeView::parse(&b), Err(Error::InvalidFileFormat)));
}

#[test]
fn it_rejects_a_zero_optional_header_size() {
    let mut b = base_image();
    w16(&mut b, LFANEW + 20, 0);
    assert!(matches!(PeView::parse(&b), Err(Error::InvalidFileFormat)));
}

#[test]
fn it_rejects_bad_section_counts() {
    let mut b = base_image();
    w16(&mut b, LFANEW + 6, 1);
    assert!(matches!(PeView::parse(&b), Err(Error::Malformed(_))));
    let mut b = base_image();
    w16(&mut b, LFANEW + 6, 97);
    assert!(matches!(PeView::parse(&b), Err(Error::Malformed(_))));
}

#[test]
fn it_rejects_bad_alignments() {
    let mut b = base_image();
    w32(&mut b, OPT + 36, 511);
    assert!(matches!(PeView::parse(&b), Err(Error::Malformed(_))));
    let mut b = base_image();
    w32(&mut b, OPT + 36, 0x20000);
    assert!(matches!(PeView::parse(&b), Err(Error::Malformed(_))));
    let mut b = base_image();
    w32(&mut b, OPT + 36, 513);
    assert!(matches!(PeView::parse(&b), Err(Error::Malformed(_))));
    let mut b = base_image();
    w32(&mut b, OPT + 32, 0x100);
    assert!(matches!(PeView::parse(&b), Err(Error::Malformed(_))));
}

#[test]
fn it_rejects_a_truncated_image() {
    let b = base_image();
    assert!(matches!(PeView::parse(&b[..32]), Err(Error::InsufficientBuffer)));
    assert!(matches!(PeView::parse(&b[..200]), Err(Error::InsufficientBuffer)));
}

#[test]
fn it_reports_empty_directories() {
    let b = base_image();
    let pe = PeView::parse(&b).unwrap();
    assert!(pe.directory(DataDirectoryType::ExportTable).is_none());
    assert!(matches!(pe.exports(), Err(Error::DataDirectoryEmpty)));
    assert!(matches!(pe.imports(), Err(Error::DataDirectoryEmpty)));
    assert!(matches!(pe.relocations(), Err(Error::DataDirectoryEmpty)));
    assert!(matches!(pe.certificates(), Err(Error::DataDirectoryEmpty)));
}

#[test]
fn it_reports_a_directory_outside_every_section() {
    let mut b = base_image();
    w32(&mut b, DIRS + 5 * 8, 0x5000);
    w32(&mut b, DIRS + 5 * 8 + 4, 0x10);
    let pe = PeView::parse(&b).unwrap();
    assert!(matches!(pe.relocations(), Err(Error::SectionEmpty)));
}

/// An image whose relocation directory holds one block with the given
/// 16-bit entries, followed by a terminating header.
fn reloc_image(entries: &[u16]) -> Vec<u8> {
    let mut b = base_image();
    let block_size = 8 + 2 * entries.len();
    w32(&mut b, DIRS + 5 * 8, 0x2000);
    w32(&mut b, DIRS + 5 * 8 + 4, (block_size + 8) as u32);
    w32(&mut b, SEC2_RAW, 0x3000); // page rva
    w32(&mut b, SEC2_RAW + 4, block_size as u32);
    for (i, e) in entries.iter().enumerate() {
        w16(&mut b, SEC2_RAW + 8 + 2 * i, *e);
    }
    b
}

#[test]
fn it_iterates_relocation_blocks() {
    let b = reloc_image(&[0xA018, 0x0000]);
    let pe = PeView::parse(&b).unwrap();
    let mut table = pe.relocations().unwrap();
    let mut block = table.next().unwrap().unwrap();
    assert_eq!(block.page_rva(), 0x3000);
    assert_eq!(block.entry_count(), 2);
    assert!(matches!(block.next(), Some(Ok(Relocation::Dir64(0x18)))));
    assert!(matches!(block.next(), Some(Ok(Relocation::Absolute(0)))));
    assert!(block.next().is_none());
    assert!(table.next().is_none());
}

#[test]
fn it_rejects_unknown_relocation_types() {
    let b = reloc_image(&[0x6005, 0x0000]);
    let pe = PeView::parse(&b).unwrap();
    let mut table = pe.relocations().unwrap();
    let mut block = table.next().unwrap().unwrap();
    assert!(matches!(block.next(), Some(Err(Error::Malformed(_)))));
    let b = reloc_image(&[0xB001, 0x0000]);
    let pe = PeView::parse(&b).unwrap();
    let mut table = pe.relocations().unwrap();
    let mut block = table.next().unwrap().unwrap();
    assert!(matches!(block.next(), Some(Err(Error::Malformed(_)))));
}

#[test]
fn it_stops_relocations_on_an_unaligned_block_size() {
    let mut b = reloc_image(&[0xA018, 0x0000]);
    w32(&mut b, SEC2_RAW + 4, 10); // block size not a multiple of four
    let pe = PeView::parse(&b).unwrap();
    let mut table = pe.relocations().unwrap();
    assert!(table.next().is_none());
}

#[test]
fn it_reports_a_relocation_block_leaving_the_directory() {
    let mut b = reloc_image(&[0xA018, 0x0000]);
    w32(&mut b, SEC2_RAW + 4, 0x400); // block larger than the window
    let pe = PeView::parse(&b).unwrap();
    let mut table = pe.relocations().unwrap();
    assert!(matches!(table.next(), Some(Err(Error::InsufficientBuffer))));
}

/// An image with one imported module (name `kdcom.dll`) whose lookup table
/// holds an ordinal import and one hint/name import, then the sentinel.
fn import_image() -> Vec<u8> {
    let mut b = base_image();
    w32(&mut b, DIRS + 8, 0x2000);
    w32(&mut b, DIRS + 12, 40);
    // import directory table at rva 0x2000
    w32(&mut b, SEC2_RAW, 0x2050); // lookup rva
    w32(&mut b, SEC2_RAW + 12, 0x2100); // name rva
    w32(&mut b, SEC2_RAW + 16, 0x2060); // address rva
    // second entry stays all-zero: the sentinel
    // lookup table at rva 0x2050
    w64(&mut b, SEC2_RAW + 0x50, 0x8000_0000_0000_0003); // ordinal 3
    w64(&mut b, SEC2_RAW + 0x58, 0x2070); // hint/name record rva
    // terminator at +0x60 stays zero
    // hint/name record at rva 0x2070
    w16(&mut b, SEC2_RAW + 0x70, 1);
    wbytes(&mut b, SEC2_RAW + 0x72, b"KdPower\0");
    // module name at rva 0x2100
    wbytes(&mut b, SEC2_RAW + 0x100, b"kdcom.dll\0");
    b
}

#[test]
fn it_iterates_import_modules() {
    let b = import_image();
    let pe = PeView::parse(&b).unwrap();
    let mut table = pe.imports().unwrap();
    let mut module = table.next().unwrap().unwrap();
    assert_eq!(module.name().unwrap(), "kdcom.dll");
    assert_eq!(module.address_rva(), 0x2060);
    assert_eq!(module.time_date_stamp(), 0);
    assert!(matches!(module.next(), Some(Ok(Import::Ordinal(3)))));
    match module.next() {
        Some(Ok(Import::Name(hint, name))) => {
            assert_eq!(hint, 1);
            assert_eq!(name, "KdPower");
        },
        other => panic!("expected a name import, got {:?}", other),
    }
    assert!(module.next().is_none());
    assert!(table.next().is_none());
}

#[test]
fn it_reports_an_unterminated_import_directory() {
    let mut b = import_image();
    // no all-zero sentinel anywhere: fill the section with nonzero rows
    for off in SEC2_RAW..SEC2_RAW + 0x200 {
        b[off] = 0xFF;
    }
    w32(&mut b, SEC2_RAW, 0x2050);
    let pe = PeView::parse(&b).unwrap();
    let mut table = pe.imports().unwrap();
    let mut steps = 0u32;
    loop {
        match table.next() {
            Some(Ok(_)) => {
                steps += 1;
                assert!(steps < 1000);
            },
            Some(Err(e)) => {
                assert!(matches!(e, Error::InsufficientBuffer));
                break;
            },
            None => panic!("a sentinel appeared where none was written"),
        }
    }
}

#[test]
fn it_rejects_an_import_name_that_is_not_utf8() {
    let mut b = import_image();
    wbytes(&mut b, SEC2_RAW + 0x100, &[0xFF, 0xFE, 0x01, 0x00]);
    let pe = PeView::parse(&b).unwrap();
    let mut table = pe.imports().unwrap();
    let module = table.next().unwrap().unwrap();
    assert!(matches!(module.name(), Err(Error::Malformed(_))));
}

#[test]
fn it_rejects_an_import_name_without_a_terminator() {
    let mut b = import_image();
    // a name running to the end of the section with no NUL
    for off in SEC2_RAW + 0x100..SEC2_RAW + 0x200 {
        b[off] = b'a';
    }
    let pe = PeView::parse(&b).unwrap();
    let mut table = pe.imports().unwrap();
    let module = table.next().unwrap().unwrap();
    assert!(matches!(module.name(), Err(Error::Malformed(_))));
}

/// An image with an export directory: three address-table entries, two of
/// them named, the middle one forwarded.
fn export_image() -> Vec<u8> {
    let mut b = base_image();
    w32(&mut b, DIRS, 0x2000);
    w32(&mut b, DIRS + 4, 0x100);
    // export directory table at rva 0x2000
    w32(&mut b, SEC2_RAW + 12, 0x2090); // module name rva
    w32(&mut b, SEC2_RAW + 16, 5); // ordinal base
    w32(&mut b, SEC2_RAW + 20, 3); // number of functions
    w32(&mut b, SEC2_RAW + 24, 2); // number of names
    w32(&mut b, SEC2_RAW + 28, 0x2040); // export address table rva
    w32(&mut b, SEC2_RAW + 32, 0x2050); // name pointer table rva
    w32(&mut b, SEC2_RAW + 36, 0x2060); // ordinal table rva
    // export address table
    w32(&mut b, SEC2_RAW + 0x40, 0x5000);
    w32(&mut b, SEC2_RAW + 0x44, 0x2080); // inside the directory: forwarded
    w32(&mut b, SEC2_RAW + 0x48, 0x6000);
    // name pointer table
    w32(&mut b, SEC2_RAW + 0x50, 0x2070);
    w32(&mut b, SEC2_RAW + 0x54, 0x2078);
    // ordinal table
    w16(&mut b, SEC2_RAW + 0x60, 0);
    w16(&mut b, SEC2_RAW + 0x62, 2);
    // names
    wbytes(&mut b, SEC2_RAW + 0x70, b"foo\0");
    wbytes(&mut b, SEC2_RAW + 0x78, b"bar\0");
    // forward string
    wbytes(&mut b, SEC2_RAW + 0x80, b"Mod.Sym\0");
    // module name
    wbytes(&mut b, SEC2_RAW + 0x90, b"mine.dll\0");
    b
}

#[test]
fn it_iterates_the_export_table() {
    let b = export_image();
    let pe = PeView::parse(&b).unwrap();
    let mut table = pe.exports().unwrap();
    assert_eq!(table.func_count().unwrap(), 3);
    assert_eq!(table.name_count().unwrap(), 2);
    assert_eq!(table.time_date_stamp().unwrap(), 0);

    let e0 = table.next().unwrap().unwrap();
    assert!(matches!(e0.value, ExportValue::Rva(0x5000)));
    assert_eq!(e0.ordinal, 5);
    assert_eq!(e0.name, Some("foo"));

    let e1 = table.next().unwrap().unwrap();
    match e1.value {
        ExportValue::Forward(sym) => assert_eq!(sym, "Mod.Sym"),
        other => panic!("expected a forwarded export, got {:?}", other),
    }
    assert_eq!(e1.ordinal, 6);
    assert_eq!(e1.name, None);

    let e2 = table.next().unwrap().unwrap();
    assert!(matches!(e2.value, ExportValue::Rva(0x6000)));
    assert_eq!(e2.ordinal, 7);
    assert_eq!(e2.name, Some("bar"));

    assert!(table.next().is_none());
}

#[test]
fn it_rejects_more_names_than_functions() {
    let mut b = export_image();
    w32(&mut b, SEC2_RAW + 24, 5); // more names than functions
    let pe = PeView::parse(&b).unwrap();
    let mut table = pe.exports().unwrap();
    assert!(matches!(table.export_table(), Err(Error::Malformed(_))));
    let mut table = pe.exports().unwrap();
    assert!(matches!(table.next(), Some(Err(Error::Malformed(_)))));
}

#[test]
fn it_rejects_an_unpaired_ordinal_table() {
    let mut b = export_image();
    w32(&mut b, SEC2_RAW + 32, 0); // names present, ordinals absent
    let pe = PeView::parse(&b).unwrap();
    let mut table = pe.exports().unwrap();
    assert!(matches!(table.export_table(), Err(Error::Malformed(_))));
}

#[test]
fn it_yields_identical_exports_on_a_second_iteration() {
    let b = export_image();
    let pe = PeView::parse(&b).unwrap();
    let mut first: Vec<(u16, Option<String>)> = Vec::new();
    let mut table = pe.exports().unwrap();
    while let Some(item) = table.next() {
        let e = item.unwrap();
        first.push((e.ordinal, e.name.map(|n| n.to_string())));
    }
    let mut second: Vec<(u16, Option<String>)> = Vec::new();
    let mut table = pe.exports().unwrap();
    while let Some(item) = table.next() {
        let e = item.unwrap();
        second.push((e.ordinal, e.name.map(|n| n.to_string())));
    }
    assert_eq!(first, second);
    assert_eq!(first.len(), 3);
}

/// An image with a certificate table at file offset `0x400`: one record of
/// the given declared length, in a window of the given size.
fn cert_image(length: u32, window: u32) -> Vec<u8> {
    let mut b = base_image();
    w32(&mut b, DIRS + 4 * 8, 0x400); // a file offset, not an RVA
    w32(&mut b, DIRS + 4 * 8 + 4, window);
    w32(&mut b, SEC1_RAW, length);
    w16(&mut b, SEC1_RAW + 4, 0x200); // revision
    w16(&mut b, SEC1_RAW + 6, 2); // type
    for off in SEC1_RAW + 8..SEC1_RAW + 0x18 {
        b[off] = 0xCC;
    }
    b
}

#[test]
fn it_iterates_the_certificate_table() {
    let b = cert_image(0x18, 0x18);
    let pe = PeView::parse(&b).unwrap();
    let mut table = pe.certificates().unwrap();
    let cert = table.next().unwrap().unwrap();
    assert_eq!(cert.value().bytes().len(), 0x10);
    assert_eq!(cert.value().bytes()[0], 0xCC);
    assert_eq!(cert.revision(), 0x200);
    assert_eq!(cert.typ(), 2);
    assert!(table.next().is_none());
}

#[test]
fn it_reports_a_certificate_leaving_the_directory() {
    let b = cert_image(0x100, 0x18);
    let pe = PeView::parse(&b).unwrap();
    let mut table = pe.certificates().unwrap();
    assert!(matches!(table.next(), Some(Err(Error::InsufficientBuffer))));
}

#[test]
fn it_returns_errors_on_fuzzed_buffers() {
    // a fixed linear-congruential sequence stands in for random bytes
    let mut state: u64 = 0x1234_5678_9ABC_DEF0;
    for _ in 0..32 {
        let mut buf = vec![0u8; 64];
        for byte in buf.iter_mut() {
            state = state.wrapping_mul(6364136223846793005).wrapping_add(1442695040888963407);
            *byte = (state >> 56) as u8;
        }
        assert!(PeView::parse(&buf).is_err());
    }
}

#[test]
fn it_checks_section_flags_and_entries() {
    let b = base_image();
    let pe = PeView::parse(&b).unwrap();
    let s = pe.section_by_name(".text\0\0\0").unwrap();
    assert!(s.has_flag(peview::header::SectionFlags::Execute));
    assert!(s.has_flag(peview::header::SectionFlags::CntCode));
    assert!(!s.has_flag(peview::header::SectionFlags::Write));
    assert!(!s.empty());
    assert!(s.contains_addr(PeAddr::Rva(0x1000)));
    assert!(!s.contains_addr(PeAddr::Rva(0x2000)));
    assert_eq!(peview::header::FileMachine::AMD64.value(), 0x8664);
    assert_eq!(peview::header::FileMachine::I386.value(), 0x014C);
    let e = peview::dir::RelocationEntry(0xA018);
    assert_eq!(e.kind(), 0xA);
    assert_eq!(e.offset(), 0x18);
}

#[test]
fn it_reads_directory_descriptors() {
    let b = export_image();
    let pe = PeView::parse(&b).unwrap();
    let d = pe.directory(DataDirectoryType::ExportTable).unwrap();
    assert_eq!(d.addr, 0x2000);
    assert_eq!(d.size, 0x100);
    assert!(d.contains_addr(0x2080));
    assert!(!d.contains_addr(0x2100));
    assert!(pe.directory(DataDirectoryType::ImportTable).is_none());
}
