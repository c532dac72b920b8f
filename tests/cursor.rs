use rparse::cursor::ByteCursor;
use rparse::error::{ErrorKind, PeError};

#[test]
fn reads_little_endian_words() {
    let mut c = ByteCursor::new(vec![0x4D, 0x5A, 0x78, 0x56, 0x34, 0x12]);
    assert_eq!(c.read_u16(), Ok(0x5A4D));
    assert_eq!(c.read_u32(), Ok(0x1234_5678));
    assert_eq!(c.offset(), 6);
    assert_eq!(c.remaining_len(), 0);
}

#[test]
fn reads_negative_i32() {
    let mut c = ByteCursor::new(vec![0xFE, 0xFF, 0xFF, 0xFF]);
    assert_eq!(c.read_i32(), Ok(-2));
}

#[test]
fn reads_u64_and_u8() {
    let mut c = ByteCursor::new(vec![0x07, 1, 2, 3, 4, 5, 6, 7, 8]);
    assert_eq!(c.read_u8(), Ok(7));
    assert_eq!(c.read_u64(), Ok(0x0807_0605_0403_0201));
}

#[test]
fn short_read_fails_without_moving() {
    let mut c = ByteCursor::new(vec![1, 2, 3]);
    assert_eq!(c.read_u16(), Ok(0x0201));
    let e = c.read_u16();
    assert_eq!(e, Err(PeError { kind: ErrorKind::UnexpectedEnd, offset: 2 }));
    assert_eq!(c.offset(), 2);
    assert_eq!(c.read_u8(), Ok(3));
    assert_eq!(c.read_u8(), Err(PeError { kind: ErrorKind::UnexpectedEnd, offset: 3 }));
}

#[test]
fn reads_bytes_verbatim() {
    let mut c = ByteCursor::new(vec![9, 8, 7, 6]);
    assert_eq!(c.read_u8(), Ok(9));
    assert_eq!(c.read_bytes(2), Ok(vec![8, 7]));
    assert_eq!(c.offset(), 3);
    assert_eq!(c.read_bytes(2), Err(PeError { kind: ErrorKind::UnexpectedEnd, offset: 3 }));
    assert_eq!(c.read_bytes(0), Ok(vec![]));
}

#[test]
fn reads_word_arrays_in_order() {
    let mut c = ByteCursor::new(vec![1, 0, 2, 0, 3, 0, 4, 0, 5]);
    assert_eq!(c.read_u16_array::<4>(), Ok([1, 2, 3, 4]));
    assert_eq!(c.offset(), 8);
    let mut c = ByteCursor::new(vec![1, 0, 2, 0, 3]);
    assert_eq!(
        c.read_u16_array::<4>(),
        Err(PeError { kind: ErrorKind::UnexpectedEnd, offset: 4 })
    );
}
