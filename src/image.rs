use vstd::prelude::*;

use crate::cursor::{i32_at, ByteCursor};
use crate::error::PeError;
use crate::legacy::{
    decode_legacy_header, decode_stub, legacy_header_at, legacy_header_error, stub_outcome,
    legacy_header_is_zero, zero_legacy_header, LegacyHeader, FORWARD_OFFSET_FIELD, LEGACY_HEADER_SIZE,
};
use crate::modern::{
    decode_modern_header, modern_header_at, modern_header_end, modern_header_error, DataDirectory,
    FileHeader, ModernHeader, OptionalHeader,
};

verus! {

/// Why decoding a whole image fails, if it does: the legacy header at the
/// start, then the stub after it, then the modern header where the legacy
/// header points.
pub open spec fn image_error(s: Seq<u8>) -> Option<PeError> {
    match legacy_header_error(s, 0) {
        Some(e) => Some(e),
        None => match stub_outcome(s, LEGACY_HEADER_SIZE as int, i32_at(s, FORWARD_OFFSET_FIELD as int)) {
            Err(e) => Some(e),
            Ok(_) => modern_header_error(s, i32_at(s, FORWARD_OFFSET_FIELD as int) as int),
        },
    }
}

/// A modern header with every field zero and no directory entry.
fn zero_modern_header() -> (r: ModernHeader)
    ensures
        r.signature == 0,
        r.optional_header.magic == 0,
        r.optional_header.number_of_rva_and_sizes == 0,
        r.data_directory@.len() == 0,
{
    ModernHeader {
        signature: 0,
        file_header: FileHeader {
            machine: 0,
            number_of_sections: 0,
            time_date_stamp: 0,
            pointer_to_symbol_table: 0,
            number_of_symbols: 0,
            size_of_optional_header: 0,
            characteristics: 0,
        },
        optional_header: OptionalHeader {
            magic: 0,
            major_linker_version: 0,
            minor_linker_version: 0,
            size_of_code: 0,
            size_of_initialized_data: 0,
            size_of_uninitialized_data: 0,
            address_of_entry_point: 0,
            base_of_code: 0,
            base_of_data: None,
            image_base: 0,
            section_alignment: 0,
            file_alignment: 0,
            major_operating_system_version: 0,
            minor_operating_system_version: 0,
            major_image_version: 0,
            minor_image_version: 0,
            major_subsystem_version: 0,
            minor_subsystem_version: 0,
            win32_version_value: 0,
            size_of_image: 0,
            size_of_headers: 0,
            check_sum: 0,
            subsystem: 0,
            dll_characteristics: 0,
            size_of_stack_reserve: 0,
            size_of_stack_commit: 0,
            size_of_heap_reserve: 0,
            size_of_heap_commit: 0,
            loader_flags: 0,
            number_of_rva_and_sizes: 0,
        },
        data_directory: Vec::new(),
    }
}

/// An image being decoded: the buffer with a read position, and the
/// structures decoded from it so far. Each stage reads where the previous
/// one stopped, and a stage that fails leaves its structure as it was.
pub struct Pe {
    pub cursor: ByteCursor,
    pub dos_header: LegacyHeader,
    pub dos_stub: Vec<u8>,
    pub nt_header: ModernHeader,
}

impl Pe {
    /// The whole image.
    pub open spec fn bytes(&self) -> Seq<u8> {
        self.cursor.bytes()
    }

    /// Where the next stage starts reading.
    pub open spec fn position(&self) -> int {
        self.cursor.pos()
    }

    pub open spec fn wf(&self) -> bool {
        self.cursor.wf()
    }

    /// An image over `data`, read from its start, with nothing decoded yet.
    pub fn new(data: Vec<u8>) -> (r: Pe)
        ensures
            r.wf(),
            r.bytes() == data@,
            r.position() == 0,
            legacy_header_is_zero(r.dos_header),
            r.dos_stub@.len() == 0,
            r.nt_header.data_directory@.len() == 0,
    {
        Pe {
            cursor: ByteCursor::new(data),
            dos_header: zero_legacy_header(),
            dos_stub: Vec::new(),
            nt_header: zero_modern_header(),
        }
    }

    /// Decodes the legacy header at the read position into `dos_header`.
    pub fn parse_dos_header(&mut self) -> (r: Result<(), PeError>)
        requires
            old(self).wf(),
        ensures
            final(self).wf(),
            final(self).bytes() == old(self).bytes(),
            final(self).dos_stub == old(self).dos_stub,
            final(self).nt_header == old(self).nt_header,
            match legacy_header_error(old(self).bytes(), old(self).position()) {
                Some(e) => r == Err::<(), PeError>(e) && final(self).dos_header == old(self).dos_header,
                None => r is Ok && legacy_header_at(
                    final(self).dos_header,
                    old(self).bytes(),
                    old(self).position(),
                ) && final(self).position() == old(self).position() + LEGACY_HEADER_SIZE,
            },
    {
        let h = decode_legacy_header(&mut self.cursor)?;
        self.dos_header = h;
        Ok(())
    }

    /// Decodes the stub at the read position into `dos_stub`, its length
    /// given by the forward offset of `dos_header`.
    pub fn parse_dos_stub(&mut self) -> (r: Result<(), PeError>)
        requires
            old(self).wf(),
        ensures
            final(self).wf(),
            final(self).bytes() == old(self).bytes(),
            final(self).dos_header == old(self).dos_header,
            final(self).nt_header == old(self).nt_header,
            match stub_outcome(old(self).bytes(), old(self).position(), old(self).dos_header.e_lfanew) {
                Ok(b) => r is Ok && final(self).dos_stub@ == b && final(self).position() == old(
                    self,
                ).position() + b.len(),
                Err(e) => r == Err::<(), PeError>(e) && final(self).dos_stub == old(self).dos_stub
                    && final(self).position() == old(self).position(),
            },
    {
        let stub = decode_stub(&mut self.cursor, self.dos_header.e_lfanew)?;
        self.dos_stub = stub;
        Ok(())
    }

    /// Decodes the modern header at the read position into `nt_header`.
    pub fn parse_nt_header(&mut self) -> (r: Result<(), PeError>)
        requires
            old(self).wf(),
        ensures
            final(self).wf(),
            final(self).bytes() == old(self).bytes(),
            final(self).dos_header == old(self).dos_header,
            final(self).dos_stub == old(self).dos_stub,
            match modern_header_error(old(self).bytes(), old(self).position()) {
                Some(e) => r == Err::<(), PeError>(e) && final(self).nt_header == old(self).nt_header,
                None => r is Ok && modern_header_at(
                    final(self).nt_header,
                    old(self).bytes(),
                    old(self).position(),
                ) && final(self).position() == modern_header_end(
                    old(self).bytes(),
                    old(self).position(),
                ),
            },
    {
        let h = decode_modern_header(&mut self.cursor)?;
        self.nt_header = h;
        Ok(())
    }

    /// Decodes a whole image: legacy header, stub and modern header, each
    /// where the previous one ends. The first failure ends the decode.
    pub fn parse(data: Vec<u8>) -> (r: Result<Pe, PeError>)
        ensures
            match image_error(data@) {
                Some(e) => r == Err::<Pe, PeError>(e),
                None => r is Ok && {
                    let pe = r->Ok_0;
                    let fo = i32_at(data@, FORWARD_OFFSET_FIELD as int) as int;
                    &&& pe.wf()
                    &&& pe.bytes() == data@
                    &&& legacy_header_at(pe.dos_header, data@, 0)
                    &&& pe.dos_stub@ == data@.subrange(LEGACY_HEADER_SIZE as int, fo)
                    &&& modern_header_at(pe.nt_header, data@, fo)
                    &&& pe.position() == modern_header_end(data@, fo)
                },
            },
    {
        let mut pe = Pe::new(data);
        pe.parse_dos_header()?;
        pe.parse_dos_stub()?;
        pe.parse_nt_header()?;
        Ok(pe)
    }
}

} // verus!
