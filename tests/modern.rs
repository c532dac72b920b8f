use rparse::cursor::ByteCursor;
use rparse::error::{ErrorKind, PeError};
use rparse::modern::{decode_modern_header, DataDirectory};

fn optional_block(magic: u16, count: u32) -> Vec<u8> {
    let size = if magic == 0x20B { 112 } else { 96 };
    let mut o = vec![0u8; size];
    o[0..2].copy_from_slice(&magic.to_le_bytes());
    o[size - 4..].copy_from_slice(&count.to_le_bytes());
    o
}

fn modern_bytes(magic: u16, count: u32, dirs: &[(u32, u32)]) -> Vec<u8> {
    let mut b = vec![0x50, 0x45, 0x00, 0x00];
    b.extend_from_slice(&0x014Cu16.to_le_bytes());
    b.extend_from_slice(&3u16.to_le_bytes());
    b.extend_from_slice(&0x5F00_0000u32.to_le_bytes());
    b.extend_from_slice(&0u32.to_le_bytes());
    b.extend_from_slice(&0u32.to_le_bytes());
    b.extend_from_slice(&0x00E0u16.to_le_bytes());
    b.extend_from_slice(&0x0102u16.to_le_bytes());
    b.extend_from_slice(&optional_block(magic, count));
    for (va, size) in dirs {
        b.extend_from_slice(&va.to_le_bytes());
        b.extend_from_slice(&size.to_le_bytes());
    }
    b
}

fn pairs(n: u32) -> Vec<(u32, u32)> {
    (0..n).map(|i| (0x1000 * (i + 1), 0x10 + i)).collect()
}

#[test]
fn decodes_file_header() {
    let mut c = ByteCursor::new(modern_bytes(0x10B, 0, &[]));
    let h = decode_modern_header(&mut c).unwrap();
    assert_eq!(h.signature, 0x4550);
    assert_eq!(h.file_header.machine, 0x014C);
    assert_eq!(h.file_header.number_of_sections, 3);
    assert_eq!(h.file_header.time_date_stamp, 0x5F00_0000);
    assert_eq!(h.file_header.size_of_optional_header, 0x00E0);
    assert_eq!(h.file_header.characteristics, 0x0102);
}

#[test]
fn count_above_capacity_is_rejected() {
    let mut c = ByteCursor::new(modern_bytes(0x10B, 17, &pairs(17)));
    assert_eq!(
        decode_modern_header(&mut c),
        Err(PeError { kind: ErrorKind::DirectoryCountOutOfRange, offset: 24 + 92 })
    );
    let mut c = ByteCursor::new(modern_bytes(0x20B, 17, &pairs(17)));
    assert_eq!(
        decode_modern_header(&mut c),
        Err(PeError { kind: ErrorKind::DirectoryCountOutOfRange, offset: 24 + 108 })
    );
}

#[test]
fn full_table_reads_every_entry() {
    let dirs = pairs(16);
    let mut c = ByteCursor::new(modern_bytes(0x10B, 16, &dirs));
    let h = decode_modern_header(&mut c).unwrap();
    assert_eq!(h.data_directory.len(), 16);
    for (i, (va, size)) in dirs.iter().enumerate() {
        assert_eq!(h.data_directory[i], DataDirectory { virtual_address: *va, size: *size });
    }
    assert_eq!(c.offset(), 24 + 96 + 16 * 8);
}

#[test]
fn zero_count_reads_no_entry() {
    let mut b = modern_bytes(0x20B, 0, &[]);
    b.extend_from_slice(&[0xAA; 8]);
    let mut c = ByteCursor::new(b);
    let h = decode_modern_header(&mut c).unwrap();
    assert_eq!(h.data_directory.len(), 0);
    assert_eq!(c.offset(), 24 + 112);
}

#[test]
fn truncated_table_ends_early() {
    let mut c = ByteCursor::new(modern_bytes(0x10B, 2, &pairs(1)));
    assert_eq!(
        decode_modern_header(&mut c),
        Err(PeError { kind: ErrorKind::UnexpectedEnd, offset: 24 + 96 })
    );
}

#[test]
fn wrong_signature_is_rejected() {
    let mut b = modern_bytes(0x10B, 0, &[]);
    b[2] = 1;
    let mut c = ByteCursor::new(b);
    assert_eq!(
        decode_modern_header(&mut c),
        Err(PeError { kind: ErrorKind::InvalidSignature, offset: 0 })
    );
}

#[test]
fn unknown_optional_magic_is_rejected() {
    let mut c = ByteCursor::new(modern_bytes(0x107, 0, &[]));
    assert_eq!(
        decode_modern_header(&mut c),
        Err(PeError { kind: ErrorKind::UnsupportedOptionalHeaderFormat, offset: 24 })
    );
}

#[test]
fn truncated_headers_end_early() {
    let full = modern_bytes(0x10B, 0, &[]);
    let cases = [(3usize, 0usize), (4, 4), (23, 4), (24, 24), (25, 24), (100, 24)];
    for (len, at) in cases {
        let mut c = ByteCursor::new(full[..len].to_vec());
        assert_eq!(
            decode_modern_header(&mut c),
            Err(PeError { kind: ErrorKind::UnexpectedEnd, offset: at })
        );
    }
}

#[test]
fn thirty_two_bit_layout_fields() {
    let mut b = modern_bytes(0x10B, 0, &[]);
    let o = 24;
    b[o + 2] = 14;
    b[o + 3] = 2;
    b[o + 24..o + 28].copy_from_slice(&0x0000_3000u32.to_le_bytes());
    b[o + 28..o + 32].copy_from_slice(&0x0040_0000u32.to_le_bytes());
    b[o + 68..o + 70].copy_from_slice(&3u16.to_le_bytes());
    b[o + 72..o + 76].copy_from_slice(&0x0010_0000u32.to_le_bytes());
    let mut c = ByteCursor::new(b);
    let h = decode_modern_header(&mut c).unwrap().optional_header;
    assert_eq!(h.magic, 0x10B);
    assert_eq!(h.major_linker_version, 14);
    assert_eq!(h.minor_linker_version, 2);
    assert_eq!(h.base_of_data, Some(0x3000));
    assert_eq!(h.image_base, 0x0040_0000);
    assert_eq!(h.subsystem, 3);
    assert_eq!(h.size_of_stack_reserve, 0x0010_0000);
}

#[test]
fn sixty_four_bit_layout_fields() {
    let mut b = modern_bytes(0x20B, 0, &[]);
    let o = 24;
    b[o + 24..o + 32].copy_from_slice(&0x0000_0001_4000_0000u64.to_le_bytes());
    b[o + 72..o + 80].copy_from_slice(&0x0000_0002_0000_0000u64.to_le_bytes());
    b[o + 96..o + 104].copy_from_slice(&0x1000u64.to_le_bytes());
    b[o + 104..o + 108].copy_from_slice(&7u32.to_le_bytes());
    let mut c = ByteCursor::new(b);
    let h = decode_modern_header(&mut c).unwrap().optional_header;
    assert_eq!(h.magic, 0x20B);
    assert_eq!(h.base_of_data, None);
    assert_eq!(h.image_base, 0x0000_0001_4000_0000);
    assert_eq!(h.size_of_stack_reserve, 0x0000_0002_0000_0000);
    assert_eq!(h.size_of_heap_commit, 0x1000);
    assert_eq!(h.loader_flags, 7);
}
