use peview::error::Error;
use peview::mem::{str_from_bytes, ByteReader, FromBytes, SkipPos};

#[test]
fn it_reads_little_endian_integers() {
    let bytes: Vec<u8> = vec![0x4D, 0x5A, 0x90, 0x00, 0x03, 0x00, 0x00, 0x00, 0x11, 0x22, 0x33, 0x44];
    let mut r = ByteReader::new(&bytes);
    let a: u16 = r.read().unwrap();
    assert_eq!(a, 0x5A4D);
    let b: u16 = r.read().unwrap();
    assert_eq!(b, 0x0090);
    let c: u32 = r.read().unwrap();
    assert_eq!(c, 0x0003);
    let d: u32 = r.read().unwrap();
    assert_eq!(d, 0x4433_2211);
    let e: Result<u8, Error> = r.read();
    assert!(matches!(e, Err(Error::InsufficientBuffer)));
}

#[test]
fn it_reports_misaligned_typed_reads() {
    let bytes: Vec<u8> = vec![0u8; 32];
    let mut r = ByteReader::new(&bytes);
    r.skip(SkipPos::Cur(4));
    let a: Result<u64, Error> = r.read();
    assert!(matches!(a, Err(Error::Misaligned)));
    let b: Result<u64, Error> = r.read_at(3);
    assert!(matches!(b, Err(Error::Misaligned)));
    let c: Result<u64, Error> = r.read_at(8);
    assert!(c.is_ok());
}

#[test]
fn it_resolves_relative_positions() {
    let bytes: Vec<u8> = vec![1, 2, 3, 4, 5, 6, 7, 8];
    let r = ByteReader::new_with_rel(&bytes, 0x1000);
    assert_eq!(r.rel_pos(), Some(0x1000));
    assert_eq!(r.pos_to_rel(0x1004), 4);
    let tail = r.bytes_at(0x1006).unwrap();
    assert_eq!(tail, &[7, 8]);
    assert!(matches!(r.bytes_at(0x0800), Err(Error::InsufficientBuffer)));
    assert!(matches!(r.bytes_at(0x1009), Err(Error::InsufficientBuffer)));
    let v: u16 = r.read_at(0x1002).unwrap();
    assert_eq!(v, 0x0403);
}

#[test]
fn it_tracks_the_cursor_across_skips() {
    let bytes: Vec<u8> = vec![9u8; 16];
    let mut r = ByteReader::new(&bytes);
    r.skip(SkipPos::Cur(10));
    assert_eq!(r.remaining_bytes().len(), 6);
    r.skip(SkipPos::Rel(2));
    assert_eq!(r.remaining_bytes().len(), 14);
    assert_eq!(r.bytes().len(), 16);
    // a skip past the end leaves the cursor at the end
    r.skip(SkipPos::Cur(100));
    assert_eq!(r.remaining_bytes().len(), 0);
    let v: Result<u8, Error> = r.read();
    assert!(matches!(v, Err(Error::InsufficientBuffer)));
}

#[test]
fn it_decodes_nul_terminated_strings() {
    assert_eq!(str_from_bytes(b"hello\0world").unwrap(), "hello");
    assert_eq!(str_from_bytes(b"\0").unwrap(), "");
    assert!(matches!(str_from_bytes(b"no terminator"), Err(Error::Malformed(_))));
    assert!(matches!(str_from_bytes(&[0xFF, 0xFE, 0x00]), Err(Error::Malformed(_))));
    // the bytes before the terminator are decoded, not returned raw
    assert_eq!(str_from_bytes("caf\u{e9}\0".as_bytes()).unwrap(), "caf\u{e9}");
}

#[test]
fn it_checks_bounds_in_from_bytes() {
    let bytes: Vec<u8> = vec![0xAA; 8];
    assert!(matches!(u32::from_bytes(&bytes, 8), Err(Error::InsufficientBuffer)));
    assert!(matches!(u32::from_bytes(&bytes, 6), Err(Error::InsufficientBuffer)));
    assert!(matches!(u32::from_bytes(&bytes, 2), Err(Error::Misaligned)));
    assert_eq!(u32::from_bytes(&bytes, 4).unwrap(), 0xAAAA_AAAA);
}
