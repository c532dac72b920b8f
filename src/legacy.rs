use vstd::prelude::*;

use crate::cursor::{i32_at, u16_at, u32_at, ByteCursor};
use crate::error::{err_at, ErrorKind, PeError};

verus! {

/// `MZ`, the first two bytes of every image.
pub const LEGACY_MAGIC: u16 = 0x5A4D;

/// Fourteen words, four reserved words, two words, ten reserved words and
/// the 32-bit forward offset.
pub const LEGACY_HEADER_SIZE: usize = 14 * 2 + 4 * 2 + 2 * 2 + 10 * 2 + 4;

/// Where, inside the legacy header, the forward offset is stored.
pub const FORWARD_OFFSET_FIELD: usize = LEGACY_HEADER_SIZE - 4;

/// The fixed-layout compatibility header at the start of an image.
#[derive(Debug, Clone, Copy, PartialEq, Eq)]
pub struct LegacyHeader {
    pub e_magic: u16,
    pub e_cblp: u16,
    pub e_cp: u16,
    pub e_crlc: u16,
    pub e_cparhdr: u16,
    pub e_minalloc: u16,
    pub e_maxalloc: u16,
    pub e_ss: u16,
    pub e_sp: u16,
    pub e_csum: u16,
    pub e_ip: u16,
    pub e_cs: u16,
    pub e_lfarlc: u16,
    pub e_ovno: u16,
    pub e_res: [u16; 4],
    pub e_oemid: u16,
    pub e_oeminfo: u16,
    pub e_res2: [u16; 10],
    /// Byte offset, from the start of the buffer, of the modern header.
    pub e_lfanew: i32,
}

/// Every field of `h`, reserved words included, is zero.
pub open spec fn legacy_header_is_zero(h: LegacyHeader) -> bool {
    &&& h.e_magic == 0 && h.e_cblp == 0 && h.e_cp == 0 && h.e_crlc == 0
    &&& h.e_cparhdr == 0 && h.e_minalloc == 0 && h.e_maxalloc == 0 && h.e_ss == 0
    &&& h.e_sp == 0 && h.e_csum == 0 && h.e_ip == 0 && h.e_cs == 0
    &&& h.e_lfarlc == 0 && h.e_ovno == 0 && h.e_oemid == 0 && h.e_oeminfo == 0
    &&& h.e_res@ == seq![0u16; 4]
    &&& h.e_res2@ == seq![0u16; 10]
    &&& h.e_lfanew == 0
}

/// A legacy header with every field zero.
pub(crate) fn zero_legacy_header() -> (r: LegacyHeader)
    ensures
        legacy_header_is_zero(r),
{
    let r = LegacyHeader {
        e_magic: 0,
        e_cblp: 0,
        e_cp: 0,
        e_crlc: 0,
        e_cparhdr: 0,
        e_minalloc: 0,
        e_maxalloc: 0,
        e_ss: 0,
        e_sp: 0,
        e_csum: 0,
        e_ip: 0,
        e_cs: 0,
        e_lfarlc: 0,
        e_ovno: 0,
        e_res: [0; 4],
        e_oemid: 0,
        e_oeminfo: 0,
        e_res2: [0; 10],
        e_lfanew: 0,
    };
    assert(r.e_res@ =~= seq![0u16; 4]);
    assert(r.e_res2@ =~= seq![0u16; 10]);
    r
}

/// The `n` little-endian words stored from `at` on.
pub open spec fn words_at(s: Seq<u8>, at: int, n: nat) -> Seq<u16> {
    Seq::new(n, |i: int| u16_at(s, at + 2 * i))
}

/// `h` holds exactly the fields stored in the 64 bytes of `s` from `p` on.
pub open spec fn legacy_header_at(h: LegacyHeader, s: Seq<u8>, p: int) -> bool {
    &&& h.e_magic == u16_at(s, p)
    &&& h.e_cblp == u16_at(s, p + 2)
    &&& h.e_cp == u16_at(s, p + 4)
    &&& h.e_crlc == u16_at(s, p + 6)
    &&& h.e_cparhdr == u16_at(s, p + 8)
    &&& h.e_minalloc == u16_at(s, p + 10)
    &&& h.e_maxalloc == u16_at(s, p + 12)
    &&& h.e_ss == u16_at(s, p + 14)
    &&& h.e_sp == u16_at(s, p + 16)
    &&& h.e_csum == u16_at(s, p + 18)
    &&& h.e_ip == u16_at(s, p + 20)
    &&& h.e_cs == u16_at(s, p + 22)
    &&& h.e_lfarlc == u16_at(s, p + 24)
    &&& h.e_ovno == u16_at(s, p + 26)
    &&& h.e_res@ == words_at(s, p + 28, 4)
    &&& h.e_oemid == u16_at(s, p + 36)
    &&& h.e_oeminfo == u16_at(s, p + 38)
    &&& h.e_res2@ == words_at(s, p + 40, 10)
    &&& h.e_lfanew == i32_at(s, p + 60)
}

/// Why decoding a legacy header at `p` fails, if it does: a missing magic
/// number first, then a truncated header.
pub open spec fn legacy_header_error(s: Seq<u8>, p: int) -> Option<PeError> {
    if s.len() - p < 2 {
        Some(err_at(ErrorKind::UnexpectedEnd, p))
    } else if u16_at(s, p) != LEGACY_MAGIC {
        Some(err_at(ErrorKind::InvalidMagic, p))
    } else if s.len() - p < LEGACY_HEADER_SIZE {
        Some(err_at(ErrorKind::UnexpectedEnd, p))
    } else {
        None
    }
}

/// Decodes a legacy header at the cursor. The magic number is checked before
/// anything else is read.
pub fn decode_legacy_header(cur: &mut ByteCursor) -> (r: Result<LegacyHeader, PeError>)
    requires
        old(cur).wf(),
    ensures
        final(cur).wf(),
        final(cur).bytes() == old(cur).bytes(),
        match legacy_header_error(old(cur).bytes(), old(cur).pos()) {
            Some(e) => r == Err::<LegacyHeader, PeError>(e),
            None => r is Ok && legacy_header_at(r->Ok_0, old(cur).bytes(), old(cur).pos())
                && final(cur).pos() == old(cur).pos() + LEGACY_HEADER_SIZE,
        },
{
    let start = cur.offset();
    let e_magic = cur.read_u16()?;
    if e_magic != LEGACY_MAGIC {
        return Err(PeError::new(ErrorKind::InvalidMagic, start));
    }
    if cur.remaining_len() < LEGACY_HEADER_SIZE - 2 {
        return Err(PeError::new(ErrorKind::UnexpectedEnd, start));
    }
    let e_cblp = cur.read_u16()?;
    let e_cp = cur.read_u16()?;
    let e_crlc = cur.read_u16()?;
    let e_cparhdr = cur.read_u16()?;
    let e_minalloc = cur.read_u16()?;
    let e_maxalloc = cur.read_u16()?;
    let e_ss = cur.read_u16()?;
    let e_sp = cur.read_u16()?;
    let e_csum = cur.read_u16()?;
    let e_ip = cur.read_u16()?;
    let e_cs = cur.read_u16()?;
    let e_lfarlc = cur.read_u16()?;
    let e_ovno = cur.read_u16()?;
    let e_res = cur.read_u16_array::<4>()?;
    let e_oemid = cur.read_u16()?;
    let e_oeminfo = cur.read_u16()?;
    let e_res2 = cur.read_u16_array::<10>()?;
    let e_lfanew = cur.read_i32()?;
    Ok(
        LegacyHeader {
            e_magic,
            e_cblp,
            e_cp,
            e_crlc,
            e_cparhdr,
            e_minalloc,
            e_maxalloc,
            e_ss,
            e_sp,
            e_csum,
            e_ip,
            e_cs,
            e_lfarlc,
            e_ovno,
            e_res,
            e_oemid,
            e_oeminfo,
            e_res2,
            e_lfanew,
        },
    )
}

/// What follows a legacy header up to the modern header: the bytes from `p`
/// up to `forward_offset`, for a cursor left right after the legacy header.
pub open spec fn stub_outcome(s: Seq<u8>, p: int, forward_offset: i32) -> Result<Seq<u8>, PeError> {
    if forward_offset < LEGACY_HEADER_SIZE {
        Err(err_at(ErrorKind::CorruptLayout, FORWARD_OFFSET_FIELD as int))
    } else if s.len() - p < forward_offset - LEGACY_HEADER_SIZE {
        Err(err_at(ErrorKind::UnexpectedEnd, p))
    } else {
        Ok(s.subrange(p, p + forward_offset - LEGACY_HEADER_SIZE))
    }
}

/// Decodes the opaque stub, whose length is `forward_offset` less the size
/// of the legacy header. An offset that points inside the legacy header is
/// refused before any subtraction.
pub fn decode_stub(cur: &mut ByteCursor, forward_offset: i32) -> (r: Result<Vec<u8>, PeError>)
    requires
        old(cur).wf(),
    ensures
        final(cur).wf(),
        final(cur).bytes() == old(cur).bytes(),
        match stub_outcome(old(cur).bytes(), old(cur).pos(), forward_offset) {
            Ok(b) => r is Ok && r->Ok_0@ == b && final(cur).pos() == old(cur).pos() + b.len(),
            Err(e) => r == Err::<Vec<u8>, PeError>(e) && final(cur).pos() == old(cur).pos(),
        },
{
    if forward_offset < LEGACY_HEADER_SIZE as i32 {
        return Err(PeError::new(ErrorKind::CorruptLayout, FORWARD_OFFSET_FIELD));
    }
    let len = forward_offset as usize - LEGACY_HEADER_SIZE;
    cur.read_bytes(len)
}

/// The 32 little-endian words a legacy header is stored as; the forward
/// offset takes the last two.
pub open spec fn legacy_header_words(h: LegacyHeader) -> Seq<u16> {
    seq![
        h.e_magic,
        h.e_cblp,
        h.e_cp,
        h.e_crlc,
        h.e_cparhdr,
        h.e_minalloc,
        h.e_maxalloc,
        h.e_ss,
        h.e_sp,
        h.e_csum,
        h.e_ip,
        h.e_cs,
        h.e_lfarlc,
        h.e_ovno,
    ] + h.e_res@ + seq![h.e_oemid, h.e_oeminfo] + h.e_res2@ + seq![
        ((h.e_lfanew as u32) % 65536) as u16,
        ((h.e_lfanew as u32) / 65536) as u16,
    ]
}

/// Each word as two bytes, least significant first.
pub open spec fn words_to_bytes(w: Seq<u16>) -> Seq<u8> {
    Seq::new(
        2 * w.len(),
        |i: int|
            if i % 2 == 0 {
                (w[i / 2] % 256) as u8
            } else {
                (w[i / 2] / 256) as u8
            },
    )
}

/// The 64 bytes that store `h`.
pub open spec fn legacy_header_bytes(h: LegacyHeader) -> Seq<u8> {
    words_to_bytes(legacy_header_words(h))
}

fn push_words(out: &mut Vec<u16>, a: &[u16])
    ensures
        final(out)@ == old(out)@ + a@,
{
    let mut i: usize = 0;
    while i < a.len()
        invariant
            i <= a@.len(),
            out@ == old(out)@ + a@.subrange(0, i as int),
        decreases a@.len() - i,
    {
        out.push(a[i]);
        i = i + 1;
        assert(out@ =~= old(out)@ + a@.subrange(0, i as int));
    }
    assert(a@.subrange(0, a@.len() as int) =~= a@);
}

/// Stores `h` in the 64 bytes a decoder reads it from.
pub fn encode_legacy_header(h: &LegacyHeader) -> (r: Vec<u8>)
    ensures
        r@ == legacy_header_bytes(*h),
{
    let mut w: Vec<u16> = Vec::new();
    w.push(h.e_magic);
    w.push(h.e_cblp);
    w.push(h.e_cp);
    w.push(h.e_crlc);
    w.push(h.e_cparhdr);
    w.push(h.e_minalloc);
    w.push(h.e_maxalloc);
    w.push(h.e_ss);
    w.push(h.e_sp);
    w.push(h.e_csum);
    w.push(h.e_ip);
    w.push(h.e_cs);
    w.push(h.e_lfarlc);
    w.push(h.e_ovno);
    push_words(&mut w, h.e_res.as_slice());
    w.push(h.e_oemid);
    w.push(h.e_oeminfo);
    push_words(&mut w, h.e_res2.as_slice());
    let forward = h.e_lfanew as u32;
    w.push((forward % 65536) as u16);
    w.push((forward / 65536) as u16);
    assert(w@ =~= legacy_header_words(*h));
    let mut out: Vec<u8> = Vec::new();
    let mut i: usize = 0;
    while i < w.len()
        invariant
            i <= w@.len(),
            w@.len() == 32,
            out@ == words_to_bytes(w@.subrange(0, i as int)),
        decreases w@.len() - i,
    {
        let v = w[i];
        out.push((v % 256) as u8);
        out.push((v / 256) as u8);
        i = i + 1;
        assert(out@ =~= words_to_bytes(w@.subrange(0, i as int)));
    }
    assert(w@.subrange(0, 32) =~= w@);
    out
}

proof fn lemma_word_bytes(w: Seq<u16>, k: int)
    requires
        0 <= k < w.len(),
    ensures
        u16_at(words_to_bytes(w), 2 * k) == w[k],
{
    let b = words_to_bytes(w);
    assert((2 * k) % 2 == 0 && (2 * k) / 2 == k);
    assert((2 * k + 1) % 2 == 1 && (2 * k + 1) / 2 == k);
    assert(b[2 * k] as int == w[k] % 256);
    assert(b[2 * k + 1] as int == w[k] / 256);
}

/// Whether the first two bytes at `p` are `4D 5A` is whether the magic word
/// there is `LEGACY_MAGIC`.
pub proof fn lemma_magic_bytes(s: Seq<u8>, p: int)
    requires
        0 <= p,
        p + 2 <= s.len(),
    ensures
        (u16_at(s, p) == LEGACY_MAGIC) <==> (s[p] == 0x4D && s[p + 1] == 0x5A),
{
}

/// A buffer shorter than a legacy header fails with `UnexpectedEnd` at its
/// start, unless its first two bytes are there and already rule out the
/// magic number.
pub proof fn lemma_short_buffer_ends(s: Seq<u8>)
    requires
        s.len() < LEGACY_HEADER_SIZE,
        s.len() < 2 || (s[0] == 0x4D && s[1] == 0x5A),
    ensures
        legacy_header_error(s, 0) == Some(err_at(ErrorKind::UnexpectedEnd, 0)),
{
    if s.len() >= 2 {
        lemma_magic_bytes(s, 0);
    }
}

/// A buffer of two bytes or more that does not start with `4D 5A` fails
/// with `InvalidMagic` at its start, whatever follows.
pub proof fn lemma_bad_magic(s: Seq<u8>)
    requires
        s.len() >= 2,
        !(s[0] == 0x4D && s[1] == 0x5A),
    ensures
        legacy_header_error(s, 0) == Some(err_at(ErrorKind::InvalidMagic, 0)),
{
    lemma_magic_bytes(s, 0);
}

/// A forward offset equal to the size of the legacy header leaves an empty
/// stub, which is decoded without error.
pub proof fn lemma_empty_stub(s: Seq<u8>, p: int)
    requires
        0 <= p <= s.len(),
    ensures
        stub_outcome(s, p, LEGACY_HEADER_SIZE as i32) == Ok::<Seq<u8>, PeError>(Seq::empty()),
{
    assert(s.subrange(p, p) =~= Seq::empty());
}

/// A forward offset that points inside the legacy header is a corrupt
/// layout, whatever the buffer holds.
pub proof fn lemma_offset_inside_header(s: Seq<u8>, p: int, forward_offset: i32)
    requires
        forward_offset < LEGACY_HEADER_SIZE,
    ensures
        stub_outcome(s, p, forward_offset) == Err::<Seq<u8>, PeError>(
            err_at(ErrorKind::CorruptLayout, FORWARD_OFFSET_FIELD as int),
        ),
{
}

/// Encoding a legacy header with the right magic number and decoding the
/// bytes succeeds and gives back the same header: every field, the reserved
/// words in their order included.
pub proof fn lemma_legacy_round_trip(h: LegacyHeader)
    requires
        h.e_magic == LEGACY_MAGIC,
    ensures
        legacy_header_bytes(h).len() == LEGACY_HEADER_SIZE,
        legacy_header_error(legacy_header_bytes(h), 0) is None,
        forall|h2: LegacyHeader| #[trigger]
            legacy_header_at(h2, legacy_header_bytes(h), 0) ==> h2 == h,
{
    let w = legacy_header_words(h);
    let b = legacy_header_bytes(h);
    assert forall|k: int| 0 <= k < 32 implies #[trigger] u16_at(b, 2 * k) == w[k] by {
        lemma_word_bytes(w, k);
    }
    assert(u16_at(b, 0) == w[0]);
    let u = h.e_lfanew as u32;
    assert(u16_at(b, 60) == w[30]);
    assert(u16_at(b, 62) == w[31]);
    assert(u32_at(b, 60) == u);
    let x = h.e_lfanew;
    assert((x as u32) as i32 == x) by (bit_vector);
    assert forall|h2: LegacyHeader| #[trigger]
        legacy_header_at(h2, b, 0) implies h2 == h by {
        assert(u16_at(b, 2) == w[1]);
        assert(u16_at(b, 4) == w[2]);
        assert(u16_at(b, 6) == w[3]);
        assert(u16_at(b, 8) == w[4]);
        assert(u16_at(b, 10) == w[5]);
        assert(u16_at(b, 12) == w[6]);
        assert(u16_at(b, 14) == w[7]);
        assert(u16_at(b, 16) == w[8]);
        assert(u16_at(b, 18) == w[9]);
        assert(u16_at(b, 20) == w[10]);
        assert(u16_at(b, 22) == w[11]);
        assert(u16_at(b, 24) == w[12]);
        assert(u16_at(b, 26) == w[13]);
        assert(u16_at(b, 36) == w[18]);
        assert(u16_at(b, 38) == w[19]);
        assert forall|i: int| 0 <= i < 4 implies h2.e_res@[i] == h.e_res@[i] by {
            assert(u16_at(b, 2 * (14 + i)) == w[14 + i]);
        }
        assert forall|i: int| 0 <= i < 10 implies h2.e_res2@[i] == h.e_res2@[i] by {
            assert(u16_at(b, 2 * (20 + i)) == w[20 + i]);
        }
        assert(h2.e_res =~= h.e_res);
        assert(h2.e_res2 =~= h.e_res2);
    }
}

} // verus!
