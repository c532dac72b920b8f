use vstd::prelude::*;

pub mod cursor;
pub mod error;
pub mod image;
pub mod legacy;
pub mod modern;

pub use crate::cursor::ByteCursor;
pub use crate::error::{ErrorKind, PeError};
pub use crate::image::Pe;
pub use crate::legacy::LegacyHeader;

use crate::legacy::{
    decode_legacy_header, legacy_header_at, legacy_header_error, legacy_header_is_zero, zero_legacy_header,
    LEGACY_HEADER_SIZE,
};

verus! {

/// What the command line asks for: the image to decode.
pub struct Config {
    pub file_path: String,
}

impl Config {
    /// Takes the image's path from the first argument after the program
    /// name; fails when there is none.
    pub fn build(args: &[String]) -> (r: Result<Config, &'static str>)
        ensures
            args@.len() < 2 ==> r is Err && r->Err_0@ == "not enough arguments"@,
            args@.len() >= 2 ==> r is Ok && r->Ok_0.file_path@ == args@[1]@,
    {
        if args.len() < 2 {
            return Err("not enough arguments");
        }
        let file_path: String = args[1].clone();
        Ok(Config { file_path })
    }
}

/// An image of which only the legacy header is decoded.
#[allow(non_camel_case_types)]
pub struct pe {
    pub dos_header: LegacyHeader,
}

impl pe {
    /// Nothing decoded yet: every field of the header is zero.
    pub fn new() -> (r: pe)
        ensures
            legacy_header_is_zero(r.dos_header),
    {
        pe { dos_header: zero_legacy_header() }
    }

    /// Decodes the legacy header at `reader`'s position into `dos_header`,
    /// which a failure leaves as it was.
    pub fn parse_dos_header(&mut self, reader: &mut ByteCursor) -> (r: Result<(), PeError>)
        requires
            old(reader).wf(),
        ensures
            final(reader).wf(),
            final(reader).bytes() == old(reader).bytes(),
            match legacy_header_error(old(reader).bytes(), old(reader).pos()) {
                Some(e) => r == Err::<(), PeError>(e) && final(self).dos_header == old(self).dos_header,
                None => r is Ok && legacy_header_at(
                    final(self).dos_header,
                    old(reader).bytes(),
                    old(reader).pos(),
                ) && final(reader).pos() == old(reader).pos() + LEGACY_HEADER_SIZE,
            },
    {
        let h = decode_legacy_header(reader)?;
        self.dos_header = h;
        Ok(())
    }
}

} // verus!
