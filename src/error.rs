use vstd::prelude::*;

verus! {

/// The reason a decode stopped.
#[derive(Debug, Clone, Copy, PartialEq, Eq, Structural)]
pub enum ErrorKind {
    /// The buffer ends before the structure being read does.
    UnexpectedEnd,
    /// The legacy header does not start with `MZ`.
    InvalidMagic,
    /// The legacy header points at the modern header from inside itself.
    CorruptLayout,
    /// The modern header does not start with `PE\0\0`.
    InvalidSignature,
    /// The optional header is neither the 32-bit nor the 64-bit layout.
    UnsupportedOptionalHeaderFormat,
    /// More data directories are declared than the table can hold.
    DirectoryCountOutOfRange,
}

/// A failed decode: what went wrong, and the byte offset, from the start of
/// the buffer, where it was found.
///
/// For `UnexpectedEnd` the offset is where the truncated structure starts;
/// for the other kinds it is where the offending field starts.
#[derive(Debug, Clone, Copy, PartialEq, Eq, Structural)]
pub struct PeError {
    pub kind: ErrorKind,
    pub offset: usize,
}

pub open spec fn err_at(kind: ErrorKind, offset: int) -> PeError {
    PeError { kind, offset: offset as usize }
}

impl PeError {
    pub fn new(kind: ErrorKind, offset: usize) -> (r: PeError)
        ensures
            r == err_at(kind, offset as int),
    {
        PeError { kind, offset }
    }
}

} // verus!
