use rparse::cursor::ByteCursor;
use rparse::error::{ErrorKind, PeError};
use rparse::legacy::{decode_legacy_header, decode_stub, encode_legacy_header, LegacyHeader};
use rparse::pe;

fn legacy_bytes(forward_offset: i32) -> Vec<u8> {
    let mut b = vec![0u8; 60];
    b[0] = 0x4D;
    b[1] = 0x5A;
    b.extend_from_slice(&forward_offset.to_le_bytes());
    b
}

fn sample_header() -> LegacyHeader {
    LegacyHeader {
        e_magic: 0x5A4D,
        e_cblp: 0x0090,
        e_cp: 0x0003,
        e_crlc: 0x0004,
        e_cparhdr: 0x0005,
        e_minalloc: 0x0006,
        e_maxalloc: 0xFFFF,
        e_ss: 0x0008,
        e_sp: 0x00B8,
        e_csum: 0x000A,
        e_ip: 0x000B,
        e_cs: 0x000C,
        e_lfarlc: 0x0040,
        e_ovno: 0x000E,
        e_res: [0x1111, 0x2222, 0x3333, 0x4444],
        e_oemid: 0x0F0F,
        e_oeminfo: 0x1010,
        e_res2: [1, 2, 3, 4, 5, 6, 7, 8, 9, 10],
        e_lfanew: 0x0000_0080,
    }
}

#[test]
fn empty_buffer_ends_early() {
    let mut c = ByteCursor::new(vec![]);
    assert_eq!(
        decode_legacy_header(&mut c),
        Err(PeError { kind: ErrorKind::UnexpectedEnd, offset: 0 })
    );
}

#[test]
fn short_buffers_end_early() {
    for len in [1usize, 2, 10, 59, 60, 63] {
        let mut b = legacy_bytes(64);
        b.truncate(len);
        let mut c = ByteCursor::new(b);
        assert_eq!(
            decode_legacy_header(&mut c),
            Err(PeError { kind: ErrorKind::UnexpectedEnd, offset: 0 })
        );
        assert!(c.offset() <= len);
    }
}

#[test]
fn wrong_magic_is_rejected() {
    let mut b = legacy_bytes(64);
    b[0] = 0x5A;
    b[1] = 0x4D;
    let mut c = ByteCursor::new(b);
    assert_eq!(
        decode_legacy_header(&mut c),
        Err(PeError { kind: ErrorKind::InvalidMagic, offset: 0 })
    );
    let mut c = ByteCursor::new(vec![0x00, 0x00, 0x01]);
    assert_eq!(
        decode_legacy_header(&mut c),
        Err(PeError { kind: ErrorKind::InvalidMagic, offset: 0 })
    );
}

#[test]
fn decodes_fields_in_order() {
    let mut b = legacy_bytes(0x0100);
    b[2] = 0x90;
    b[28] = 0x34;
    b[29] = 0x12;
    b[40] = 0xCD;
    b[41] = 0xAB;
    let mut c = ByteCursor::new(b);
    let h = decode_legacy_header(&mut c).unwrap();
    assert_eq!(h.e_magic, 0x5A4D);
    assert_eq!(h.e_cblp, 0x0090);
    assert_eq!(h.e_res, [0x1234, 0, 0, 0]);
    assert_eq!(h.e_res2[0], 0xABCD);
    assert_eq!(h.e_lfanew, 0x0100);
    assert_eq!(c.offset(), 64);
}

#[test]
fn empty_stub_at_header_end() {
    let mut c = ByteCursor::new(legacy_bytes(64));
    let h = decode_legacy_header(&mut c).unwrap();
    assert_eq!(decode_stub(&mut c, h.e_lfanew), Ok(vec![]));
    assert_eq!(c.offset(), 64);
}

#[test]
fn stub_runs_to_forward_offset() {
    let mut b = legacy_bytes(68);
    b.extend_from_slice(&[0x0E, 0x1F, 0xBA, 0x0E, 0x50]);
    let mut c = ByteCursor::new(b);
    let h = decode_legacy_header(&mut c).unwrap();
    assert_eq!(decode_stub(&mut c, h.e_lfanew), Ok(vec![0x0E, 0x1F, 0xBA, 0x0E]));
    assert_eq!(c.offset(), 68);
}

#[test]
fn offset_inside_header_is_corrupt() {
    for fo in [63, 0, -1, i32::MIN] {
        let mut c = ByteCursor::new(legacy_bytes(fo));
        let h = decode_legacy_header(&mut c).unwrap();
        assert_eq!(
            decode_stub(&mut c, h.e_lfanew),
            Err(PeError { kind: ErrorKind::CorruptLayout, offset: 60 })
        );
    }
}

#[test]
fn stub_past_buffer_ends_early() {
    let mut c = ByteCursor::new(legacy_bytes(0x7FFF_FFFF));
    let h = decode_legacy_header(&mut c).unwrap();
    assert_eq!(
        decode_stub(&mut c, h.e_lfanew),
        Err(PeError { kind: ErrorKind::UnexpectedEnd, offset: 64 })
    );
}

#[test]
fn encoded_header_decodes_to_itself() {
    let h = sample_header();
    let bytes = encode_legacy_header(&h);
    assert_eq!(bytes.len(), 64);
    assert_eq!(&bytes[0..4], &[0x4D, 0x5A, 0x90, 0x00]);
    let mut c = ByteCursor::new(bytes);
    assert_eq!(decode_legacy_header(&mut c), Ok(h));
}

#[test]
fn negative_forward_offset_round_trips() {
    let mut h = sample_header();
    h.e_lfanew = -5;
    let bytes = encode_legacy_header(&h);
    assert_eq!(&bytes[60..64], &[0xFB, 0xFF, 0xFF, 0xFF]);
    let mut c = ByteCursor::new(bytes);
    assert_eq!(decode_legacy_header(&mut c), Ok(h));
}

#[test]
fn single_header_record() {
    let mut p = pe::new();
    assert_eq!(p.dos_header.e_magic, 0);
    let mut c = ByteCursor::new(legacy_bytes(0x80));
    assert_eq!(p.parse_dos_header(&mut c), Ok(()));
    assert_eq!(p.dos_header.e_magic, 0x5A4D);
    assert_eq!(p.dos_header.e_lfanew, 0x80);
    let mut bad = ByteCursor::new(vec![0u8; 64]);
    assert_eq!(
        p.parse_dos_header(&mut bad),
        Err(PeError { kind: ErrorKind::InvalidMagic, offset: 0 })
    );
    assert_eq!(p.dos_header.e_lfanew, 0x80);
}
