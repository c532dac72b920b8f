use vstd::prelude::*;

use crate::error::{err_at, ErrorKind, PeError};

verus! {

/// The little-endian 16-bit value of the two bytes at `at`.
pub open spec fn u16_at(s: Seq<u8>, at: int) -> u16 {
    (s[at] as int + 256 * s[at + 1] as int) as u16
}

/// The little-endian 32-bit value of the four bytes at `at`.
pub open spec fn u32_at(s: Seq<u8>, at: int) -> u32 {
    (u16_at(s, at) as int + 65536 * u16_at(s, at + 2) as int) as u32
}

/// The little-endian 64-bit value of the eight bytes at `at`.
pub open spec fn u64_at(s: Seq<u8>, at: int) -> u64 {
    (u32_at(s, at) as int + 4294967296 * u32_at(s, at + 4) as int) as u64
}

/// The little-endian two's-complement 32-bit value of the four bytes at `at`.
pub open spec fn i32_at(s: Seq<u8>, at: int) -> i32 {
    u32_at(s, at) as i32
}

/// Relies on byteorder's `LittleEndian::read_u16`: the first two bytes of
/// the slice, least significant first (it panics on fewer than two).
#[verifier::external_body]
fn le_u16(b: &[u8], at: usize) -> (r: u16)
    requires
        at + 2 <= b@.len(),
    ensures
        r == u16_at(b@, at as int),
{
    <byteorder::LittleEndian as byteorder::ByteOrder>::read_u16(&b[at..])
}

/// Relies on byteorder's `LittleEndian::read_u32`: the first four bytes of
/// the slice, least significant first (it panics on fewer than four).
#[verifier::external_body]
fn le_u32(b: &[u8], at: usize) -> (r: u32)
    requires
        at + 4 <= b@.len(),
    ensures
        r == u32_at(b@, at as int),
{
    <byteorder::LittleEndian as byteorder::ByteOrder>::read_u32(&b[at..])
}

/// Relies on byteorder's `LittleEndian::read_u64`: the first eight bytes of
/// the slice, least significant first (it panics on fewer than eight).
#[verifier::external_body]
fn le_u64(b: &[u8], at: usize) -> (r: u64)
    requires
        at + 8 <= b@.len(),
    ensures
        r == u64_at(b@, at as int),
{
    <byteorder::LittleEndian as byteorder::ByteOrder>::read_u64(&b[at..])
}

/// Relies on byteorder's `LittleEndian::read_i32`: `read_u32` of the same
/// bytes, reinterpreted as two's complement (it panics on fewer than four).
#[verifier::external_body]
fn le_i32(b: &[u8], at: usize) -> (r: i32)
    requires
        at + 4 <= b@.len(),
    ensures
        r == i32_at(b@, at as int),
{
    <byteorder::LittleEndian as byteorder::ByteOrder>::read_i32(&b[at..])
}

/// A bounds-checked reader over an owned byte buffer.
///
/// Every read either consumes exactly the bytes it decodes, or fails with
/// `UnexpectedEnd` at the current position and leaves the cursor unmoved.
pub struct ByteCursor {
    data: Vec<u8>,
    pos: usize,
}

impl ByteCursor {
    /// The whole buffer.
    pub closed spec fn bytes(&self) -> Seq<u8> {
        self.data@
    }

    /// The offset of the next byte to be read.
    pub closed spec fn pos(&self) -> int {
        self.pos as int
    }

    /// How many bytes are left to read.
    pub open spec fn remaining(&self) -> int {
        self.bytes().len() - self.pos()
    }

    /// The position never passes the end of the buffer.
    pub open spec fn wf(&self) -> bool {
        0 <= self.pos() <= self.bytes().len()
    }

    /// What a successful read of `n` bytes leaves behind.
    pub open spec fn advanced(&self, old: ByteCursor, n: int) -> bool {
        &&& self.wf()
        &&& self.bytes() == old.bytes()
        &&& self.pos() == old.pos() + n
    }

    /// A cursor at the start of `data`.
    pub fn new(data: Vec<u8>) -> (r: ByteCursor)
        ensures
            r.wf(),
            r.bytes() == data@,
            r.pos() == 0,
    {
        ByteCursor { data, pos: 0 }
    }

    /// The offset of the next byte to be read.
    pub fn offset(&self) -> (r: usize)
        ensures
            r == self.pos(),
    {
        self.pos
    }

    /// How many bytes are left to read.
    pub fn remaining_len(&self) -> (r: usize)
        requires
            self.wf(),
        ensures
            r == self.remaining(),
    {
        self.data.len() - self.pos
    }

    /// Reads one byte.
    pub fn read_u8(&mut self) -> (r: Result<u8, PeError>)
        requires
            old(self).wf(),
        ensures
            old(self).remaining() >= 1 ==> r == Ok::<u8, PeError>(old(self).bytes()[old(self).pos()])
                && final(self).advanced(*old(self), 1),
            old(self).remaining() < 1 ==> r == Err::<u8, PeError>(
                err_at(ErrorKind::UnexpectedEnd, old(self).pos()),
            ) && *final(self) == *old(self),
    {
        if self.data.len() - self.pos < 1 {
            return Err(PeError::new(ErrorKind::UnexpectedEnd, self.pos));
        }
        let v = self.data[self.pos];
        self.pos = self.pos + 1;
        Ok(v)
    }

    /// Reads a little-endian `u16`.
    pub fn read_u16(&mut self) -> (r: Result<u16, PeError>)
        requires
            old(self).wf(),
        ensures
            old(self).remaining() >= 2 ==> r == Ok::<u16, PeError>(
                u16_at(old(self).bytes(), old(self).pos()),
            ) && final(self).advanced(*old(self), 2),
            old(self).remaining() < 2 ==> r == Err::<u16, PeError>(
                err_at(ErrorKind::UnexpectedEnd, old(self).pos()),
            ) && *final(self) == *old(self),
    {
        if self.data.len() - self.pos < 2 {
            return Err(PeError::new(ErrorKind::UnexpectedEnd, self.pos));
        }
        let v = le_u16(self.data.as_slice(), self.pos);
        self.pos = self.pos + 2;
        Ok(v)
    }

    /// Reads a little-endian `u32`.
    pub fn read_u32(&mut self) -> (r: Result<u32, PeError>)
        requires
            old(self).wf(),
        ensures
            old(self).remaining() >= 4 ==> r == Ok::<u32, PeError>(
                u32_at(old(self).bytes(), old(self).pos()),
            ) && final(self).advanced(*old(self), 4),
            old(self).remaining() < 4 ==> r == Err::<u32, PeError>(
                err_at(ErrorKind::UnexpectedEnd, old(self).pos()),
            ) && *final(self) == *old(self),
    {
        if self.data.len() - self.pos < 4 {
            return Err(PeError::new(ErrorKind::UnexpectedEnd, self.pos));
        }
        let v = le_u32(self.data.as_slice(), self.pos);
        self.pos = self.pos + 4;
        Ok(v)
    }

    /// Reads a little-endian `u64`.
    pub fn read_u64(&mut self) -> (r: Result<u64, PeError>)
        requires
            old(self).wf(),
        ensures
            old(self).remaining() >= 8 ==> r == Ok::<u64, PeError>(
                u64_at(old(self).bytes(), old(self).pos()),
            ) && final(self).advanced(*old(self), 8),
            old(self).remaining() < 8 ==> r == Err::<u64, PeError>(
                err_at(ErrorKind::UnexpectedEnd, old(self).pos()),
            ) && *final(self) == *old(self),
    {
        if self.data.len() - self.pos < 8 {
            return Err(PeError::new(ErrorKind::UnexpectedEnd, self.pos));
        }
        let v = le_u64(self.data.as_slice(), self.pos);
        self.pos = self.pos + 8;
        Ok(v)
    }

    /// Reads a little-endian two's-complement `i32`.
    pub fn read_i32(&mut self) -> (r: Result<i32, PeError>)
        requires
            old(self).wf(),
        ensures
            old(self).remaining() >= 4 ==> r == Ok::<i32, PeError>(
                i32_at(old(self).bytes(), old(self).pos()),
            ) && final(self).advanced(*old(self), 4),
            old(self).remaining() < 4 ==> r == Err::<i32, PeError>(
                err_at(ErrorKind::UnexpectedEnd, old(self).pos()),
            ) && *final(self) == *old(self),
    {
        if self.data.len() - self.pos < 4 {
            return Err(PeError::new(ErrorKind::UnexpectedEnd, self.pos));
        }
        let v = le_i32(self.data.as_slice(), self.pos);
        self.pos = self.pos + 4;
        Ok(v)
    }

    /// Reads `N` consecutive little-endian `u16` values.
    pub fn read_u16_array<const N: usize>(&mut self) -> (r: Result<[u16; N], PeError>)
        requires
            old(self).wf(),
        ensures
            final(self).wf(),
            final(self).bytes() == old(self).bytes(),
            old(self).remaining() >= 2 * N ==> r is Ok && r->Ok_0@ == Seq::new(
                N as nat,
                |i: int| u16_at(old(self).bytes(), old(self).pos() + 2 * i),
            ) && final(self).pos() == old(self).pos() + 2 * N,
            old(self).remaining() < 2 * N ==> r == Err::<[u16; N], PeError>(
                err_at(ErrorKind::UnexpectedEnd, old(self).pos() + 2 * (old(self).remaining() / 2)),
            ),
    {
        let ghost s = self.bytes();
        let ghost p = self.pos();
        let mut out = [0u16; N];
        let mut i: usize = 0;
        while i < N
            invariant
                self.wf(),
                s == old(self).bytes(),
                p == old(self).pos(),
                self.bytes() == s,
                s.len() - p >= 2 * i,
                i <= N,
                self.pos() == p + 2 * i,
                out@.len() == N,
                forall|j: int| 0 <= j < i ==> out@[j] == u16_at(s, p + 2 * j),
            decreases N - i,
        {
            let v = self.read_u16()?;
            out[i] = v;
            i = i + 1;
        }
        assert(out@ =~= Seq::new(N as nat, |j: int| u16_at(s, p + 2 * j)));
        Ok(out)
    }

    /// Reads `n` bytes verbatim.
    pub fn read_bytes(&mut self, n: usize) -> (r: Result<Vec<u8>, PeError>)
        requires
            old(self).wf(),
        ensures
            old(self).remaining() >= n ==> r is Ok && r->Ok_0@ == old(self).bytes().subrange(
                old(self).pos(),
                old(self).pos() + n,
            ) && final(self).advanced(*old(self), n as int),
            old(self).remaining() < n ==> r == Err::<Vec<u8>, PeError>(
                err_at(ErrorKind::UnexpectedEnd, old(self).pos()),
            ) && *final(self) == *old(self),
    {
        if self.data.len() - self.pos < n {
            return Err(PeError::new(ErrorKind::UnexpectedEnd, self.pos));
        }
        let start = self.pos;
        let mut out: Vec<u8> = Vec::with_capacity(n);
        let mut i: usize = 0;
        while i < n
            invariant
                self.pos == start,
                start + n <= self.data@.len(),
                start + n <= usize::MAX,
                i <= n,
                out@ == self.data@.subrange(start as int, start + i),
            decreases n - i,
        {
            out.push(self.data[start + i]);
            i = i + 1;
        }
        self.pos = start + n;
        Ok(out)
    }
}

} // verus!
