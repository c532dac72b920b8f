use vstd::prelude::*;

use crate::cursor::{u16_at, u32_at, u64_at, ByteCursor};
use crate::error::{err_at, ErrorKind, PeError};

verus! {

/// `PE\0\0`, the first four bytes of the modern header.
pub const SIGNATURE: u32 = 0x4550;

/// Selects the 32-bit optional-header layout.
pub const PE32_MAGIC: u16 = 0x10B;

/// Selects the 64-bit optional-header layout.
pub const PE32_PLUS_MAGIC: u16 = 0x20B;

/// Machine, section count, three 32-bit fields, optional-header size and
/// characteristics.
pub const FILE_HEADER_SIZE: usize = 2 + 2 + 4 * 3 + 2 + 2;

/// The 32-bit scalar block: magic, two linker bytes, six 32-bit sizes and
/// bases, the 32-bit image base, two alignments, six versions, four 32-bit
/// fields, subsystem, DLL characteristics, four 32-bit stack and heap sizes,
/// loader flags and the directory count.
pub const OPTIONAL32_SIZE: usize = 2 + 1 + 1 + 4 * 6 + 4 + 4 * 2 + 2 * 6 + 4 * 4 + 2 * 2 + 4 * 4 + 4 + 4;

/// The 64-bit scalar block: as the 32-bit one without the data base, with a
/// 64-bit image base and 64-bit stack and heap sizes.
pub const OPTIONAL64_SIZE: usize = 2 + 1 + 1 + 4 * 5 + 8 + 4 * 2 + 2 * 6 + 4 * 4 + 2 * 2 + 8 * 4 + 4 + 4;

/// The most data directories a table holds.
pub const DIRECTORY_CAPACITY: u32 = 16;

/// Bytes per data-directory entry.
pub const DIRECTORY_ENTRY_SIZE: usize = 8;

#[derive(Debug, Clone, Copy, PartialEq, Eq, Structural)]
pub struct FileHeader {
    pub machine: u16,
    pub number_of_sections: u16,
    pub time_date_stamp: u32,
    pub pointer_to_symbol_table: u32,
    pub number_of_symbols: u32,
    pub size_of_optional_header: u16,
    pub characteristics: u16,
}

/// The scalar block of the optional header, for either layout. The fields
/// that are 32 bits wide in the 32-bit layout are widened; `base_of_data`
/// exists in the 32-bit layout only.
#[derive(Debug, Clone, Copy, PartialEq, Eq, Structural)]
pub struct OptionalHeader {
    pub magic: u16,
    pub major_linker_version: u8,
    pub minor_linker_version: u8,
    pub size_of_code: u32,
    pub size_of_initialized_data: u32,
    pub size_of_uninitialized_data: u32,
    pub address_of_entry_point: u32,
    pub base_of_code: u32,
    pub base_of_data: Option<u32>,
    pub image_base: u64,
    pub section_alignment: u32,
    pub file_alignment: u32,
    pub major_operating_system_version: u16,
    pub minor_operating_system_version: u16,
    pub major_image_version: u16,
    pub minor_image_version: u16,
    pub major_subsystem_version: u16,
    pub minor_subsystem_version: u16,
    pub win32_version_value: u32,
    pub size_of_image: u32,
    pub size_of_headers: u32,
    pub check_sum: u32,
    pub subsystem: u16,
    pub dll_characteristics: u16,
    pub size_of_stack_reserve: u64,
    pub size_of_stack_commit: u64,
    pub size_of_heap_reserve: u64,
    pub size_of_heap_commit: u64,
    pub loader_flags: u32,
    pub number_of_rva_and_sizes: u32,
}

#[derive(Debug, Clone, Copy, PartialEq, Eq, Structural)]
pub struct DataDirectory {
    pub virtual_address: u32,
    pub size: u32,
}

/// The modern header: signature, file header, optional header and the
/// populated part of its data-directory table.
#[derive(Debug, PartialEq, Eq)]
pub struct ModernHeader {
    pub signature: u32,
    pub file_header: FileHeader,
    pub optional_header: OptionalHeader,
    pub data_directory: Vec<DataDirectory>,
}

/// The file header stored in the 20 bytes from `p` on.
pub open spec fn file_header_at(s: Seq<u8>, p: int) -> FileHeader {
    FileHeader {
        machine: u16_at(s, p),
        number_of_sections: u16_at(s, p + 2),
        time_date_stamp: u32_at(s, p + 4),
        pointer_to_symbol_table: u32_at(s, p + 8),
        number_of_symbols: u32_at(s, p + 12),
        size_of_optional_header: u16_at(s, p + 16),
        characteristics: u16_at(s, p + 18),
    }
}

/// The 32-bit scalar block stored from `o` on.
pub open spec fn optional32_at(s: Seq<u8>, o: int) -> OptionalHeader {
    OptionalHeader {
        magic: u16_at(s, o),
        major_linker_version: s[o + 2],
        minor_linker_version: s[o + 3],
        size_of_code: u32_at(s, o + 4),
        size_of_initialized_data: u32_at(s, o + 8),
        size_of_uninitialized_data: u32_at(s, o + 12),
        address_of_entry_point: u32_at(s, o + 16),
        base_of_code: u32_at(s, o + 20),
        base_of_data: Some(u32_at(s, o + 24)),
        image_base: u32_at(s, o + 28) as u64,
        section_alignment: u32_at(s, o + 32),
        file_alignment: u32_at(s, o + 36),
        major_operating_system_version: u16_at(s, o + 40),
        minor_operating_system_version: u16_at(s, o + 42),
        major_image_version: u16_at(s, o + 44),
        minor_image_version: u16_at(s, o + 46),
        major_subsystem_version: u16_at(s, o + 48),
        minor_subsystem_version: u16_at(s, o + 50),
        win32_version_value: u32_at(s, o + 52),
        size_of_image: u32_at(s, o + 56),
        size_of_headers: u32_at(s, o + 60),
        check_sum: u32_at(s, o + 64),
        subsystem: u16_at(s, o + 68),
        dll_characteristics: u16_at(s, o + 70),
        size_of_stack_reserve: u32_at(s, o + 72) as u64,
        size_of_stack_commit: u32_at(s, o + 76) as u64,
        size_of_heap_reserve: u32_at(s, o + 80) as u64,
        size_of_heap_commit: u32_at(s, o + 84) as u64,
        loader_flags: u32_at(s, o + 88),
        number_of_rva_and_sizes: u32_at(s, o + 92),
    }
}

/// The 64-bit scalar block stored from `o` on.
pub open spec fn optional64_at(s: Seq<u8>, o: int) -> OptionalHeader {
    OptionalHeader {
        magic: u16_at(s, o),
        major_linker_version: s[o + 2],
        minor_linker_version: s[o + 3],
        size_of_code: u32_at(s, o + 4),
        size_of_initialized_data: u32_at(s, o + 8),
        size_of_uninitialized_data: u32_at(s, o + 12),
        address_of_entry_point: u32_at(s, o + 16),
        base_of_code: u32_at(s, o + 20),
        base_of_data: None,
        image_base: u64_at(s, o + 24),
        section_alignment: u32_at(s, o + 32),
        file_alignment: u32_at(s, o + 36),
        major_operating_system_version: u16_at(s, o + 40),
        minor_operating_system_version: u16_at(s, o + 42),
        major_image_version: u16_at(s, o + 44),
        minor_image_version: u16_at(s, o + 46),
        major_subsystem_version: u16_at(s, o + 48),
        minor_subsystem_version: u16_at(s, o + 50),
        win32_version_value: u32_at(s, o + 52),
        size_of_image: u32_at(s, o + 56),
        size_of_headers: u32_at(s, o + 60),
        check_sum: u32_at(s, o + 64),
        subsystem: u16_at(s, o + 68),
        dll_characteristics: u16_at(s, o + 70),
        size_of_stack_reserve: u64_at(s, o + 72),
        size_of_stack_commit: u64_at(s, o + 80),
        size_of_heap_reserve: u64_at(s, o + 88),
        size_of_heap_commit: u64_at(s, o + 96),
        loader_flags: u32_at(s, o + 104),
        number_of_rva_and_sizes: u32_at(s, o + 108),
    }
}

/// The size of the scalar block that `magic` selects.
pub open spec fn optional_size(magic: u16) -> int {
    if magic == PE32_MAGIC {
        OPTIONAL32_SIZE as int
    } else {
        OPTIONAL64_SIZE as int
    }
}

/// The scalar block stored from `o` on, in the layout its magic selects.
pub open spec fn optional_header_at(s: Seq<u8>, o: int) -> OptionalHeader {
    if u16_at(s, o) == PE32_MAGIC {
        optional32_at(s, o)
    } else {
        optional64_at(s, o)
    }
}

/// The `n` directory entries stored from `q` on.
pub open spec fn directories_at(s: Seq<u8>, q: int, n: nat) -> Seq<DataDirectory> {
    Seq::new(
        n,
        |i: int| DataDirectory { virtual_address: u32_at(s, q + 8 * i), size: u32_at(s, q + 8 * i + 4) },
    )
}

/// Decodes a file header at the cursor.
pub fn decode_file_header(cur: &mut ByteCursor) -> (r: Result<FileHeader, PeError>)
    requires
        old(cur).wf(),
    ensures
        final(cur).wf(),
        final(cur).bytes() == old(cur).bytes(),
        old(cur).remaining() < FILE_HEADER_SIZE ==> r == Err::<FileHeader, PeError>(
            err_at(ErrorKind::UnexpectedEnd, old(cur).pos()),
        ),
        old(cur).remaining() >= FILE_HEADER_SIZE ==> r == Ok::<FileHeader, PeError>(
            file_header_at(old(cur).bytes(), old(cur).pos()),
        ) && final(cur).pos() == old(cur).pos() + FILE_HEADER_SIZE,
{
    if cur.remaining_len() < FILE_HEADER_SIZE {
        return Err(PeError::new(ErrorKind::UnexpectedEnd, cur.offset()));
    }
    let machine = cur.read_u16()?;
    let number_of_sections = cur.read_u16()?;
    let time_date_stamp = cur.read_u32()?;
    let pointer_to_symbol_table = cur.read_u32()?;
    let number_of_symbols = cur.read_u32()?;
    let size_of_optional_header = cur.read_u16()?;
    let characteristics = cur.read_u16()?;
    Ok(
        FileHeader {
            machine,
            number_of_sections,
            time_date_stamp,
            pointer_to_symbol_table,
            number_of_symbols,
            size_of_optional_header,
            characteristics,
        },
    )
}

/// Reads the rest of a 32-bit scalar block whose magic, `magic`, was just
/// read.
fn decode_optional32_rest(cur: &mut ByteCursor, magic: u16) -> (r: Result<OptionalHeader, PeError>)
    requires
        old(cur).wf(),
        old(cur).pos() >= 2,
        u16_at(old(cur).bytes(), old(cur).pos() - 2) == magic,
        old(cur).remaining() >= OPTIONAL32_SIZE - 2,
    ensures
        final(cur).wf(),
        final(cur).bytes() == old(cur).bytes(),
        r == Ok::<OptionalHeader, PeError>(optional32_at(old(cur).bytes(), old(cur).pos() - 2)),
        final(cur).pos() == old(cur).pos() - 2 + OPTIONAL32_SIZE,
{
    let major_linker_version = cur.read_u8()?;
    let minor_linker_version = cur.read_u8()?;
    let size_of_code = cur.read_u32()?;
    let size_of_initialized_data = cur.read_u32()?;
    let size_of_uninitialized_data = cur.read_u32()?;
    let address_of_entry_point = cur.read_u32()?;
    let base_of_code = cur.read_u32()?;
    let base_of_data = cur.read_u32()?;
    let image_base = cur.read_u32()?;
    let section_alignment = cur.read_u32()?;
    let file_alignment = cur.read_u32()?;
    let major_operating_system_version = cur.read_u16()?;
    let minor_operating_system_version = cur.read_u16()?;
    let major_image_version = cur.read_u16()?;
    let minor_image_version = cur.read_u16()?;
    let major_subsystem_version = cur.read_u16()?;
    let minor_subsystem_version = cur.read_u16()?;
    let win32_version_value = cur.read_u32()?;
    let size_of_image = cur.read_u32()?;
    let size_of_headers = cur.read_u32()?;
    let check_sum = cur.read_u32()?;
    let subsystem = cur.read_u16()?;
    let dll_characteristics = cur.read_u16()?;
    let size_of_stack_reserve = cur.read_u32()?;
    let size_of_stack_commit = cur.read_u32()?;
    let size_of_heap_reserve = cur.read_u32()?;
    let size_of_heap_commit = cur.read_u32()?;
    let loader_flags = cur.read_u32()?;
    let number_of_rva_and_sizes = cur.read_u32()?;
    Ok(
        OptionalHeader {
            magic,
            major_linker_version,
            minor_linker_version,
            size_of_code,
            size_of_initialized_data,
            size_of_uninitialized_data,
            address_of_entry_point,
            base_of_code,
            base_of_data: Some(base_of_data),
            image_base: image_base as u64,
            section_alignment,
            file_alignment,
            major_operating_system_version,
            minor_operating_system_version,
            major_image_version,
            minor_image_version,
            major_subsystem_version,
            minor_subsystem_version,
            win32_version_value,
            size_of_image,
            size_of_headers,
            check_sum,
            subsystem,
            dll_characteristics,
            size_of_stack_reserve: size_of_stack_reserve as u64,
            size_of_stack_commit: size_of_stack_commit as u64,
            size_of_heap_reserve: size_of_heap_reserve as u64,
            size_of_heap_commit: size_of_heap_commit as u64,
            loader_flags,
            number_of_rva_and_sizes,
        },
    )
}

/// Reads the rest of a 64-bit scalar block whose magic, `magic`, was just
/// read.
fn decode_optional64_rest(cur: &mut ByteCursor, magic: u16) -> (r: Result<OptionalHeader, PeError>)
    requires
        old(cur).wf(),
        old(cur).pos() >= 2,
        u16_at(old(cur).bytes(), old(cur).pos() - 2) == magic,
        old(cur).remaining() >= OPTIONAL64_SIZE - 2,
    ensures
        final(cur).wf(),
        final(cur).bytes() == old(cur).bytes(),
        r == Ok::<OptionalHeader, PeError>(optional64_at(old(cur).bytes(), old(cur).pos() - 2)),
        final(cur).pos() == old(cur).pos() - 2 + OPTIONAL64_SIZE,
{
    let major_linker_version = cur.read_u8()?;
    let minor_linker_version = cur.read_u8()?;
    let size_of_code = cur.read_u32()?;
    let size_of_initialized_data = cur.read_u32()?;
    let size_of_uninitialized_data = cur.read_u32()?;
    let address_of_entry_point = cur.read_u32()?;
    let base_of_code = cur.read_u32()?;
    let image_base = cur.read_u64()?;
    let section_alignment = cur.read_u32()?;
    let file_alignment = cur.read_u32()?;
    let major_operating_system_version = cur.read_u16()?;
    let minor_operating_system_version = cur.read_u16()?;
    let major_image_version = cur.read_u16()?;
    let minor_image_version = cur.read_u16()?;
    let major_subsystem_version = cur.read_u16()?;
    let minor_subsystem_version = cur.read_u16()?;
    let win32_version_value = cur.read_u32()?;
    let size_of_image = cur.read_u32()?;
    let size_of_headers = cur.read_u32()?;
    let check_sum = cur.read_u32()?;
    let subsystem = cur.read_u16()?;
    let dll_characteristics = cur.read_u16()?;
    let size_of_stack_reserve = cur.read_u64()?;
    let size_of_stack_commit = cur.read_u64()?;
    let size_of_heap_reserve = cur.read_u64()?;
    let size_of_heap_commit = cur.read_u64()?;
    let loader_flags = cur.read_u32()?;
    let number_of_rva_and_sizes = cur.read_u32()?;
    Ok(
        OptionalHeader {
            magic,
            major_linker_version,
            minor_linker_version,
            size_of_code,
            size_of_initialized_data,
            size_of_uninitialized_data,
            address_of_entry_point,
            base_of_code,
            base_of_data: None,
            image_base,
            section_alignment,
            file_alignment,
            major_operating_system_version,
            minor_operating_system_version,
            major_image_version,
            minor_image_version,
            major_subsystem_version,
            minor_subsystem_version,
            win32_version_value,
            size_of_image,
            size_of_headers,
            check_sum,
            subsystem,
            dll_characteristics,
            size_of_stack_reserve,
            size_of_stack_commit,
            size_of_heap_reserve,
            size_of_heap_commit,
            loader_flags,
            number_of_rva_and_sizes,
        },
    )
}

/// Why decoding an optional header's scalar block at `o` fails, if it does:
/// a missing magic, an unknown layout, then a truncated block.
pub open spec fn optional_header_error(s: Seq<u8>, o: int) -> Option<PeError> {
    if s.len() - o < 2 {
        Some(err_at(ErrorKind::UnexpectedEnd, o))
    } else if u16_at(s, o) != PE32_MAGIC && u16_at(s, o) != PE32_PLUS_MAGIC {
        Some(err_at(ErrorKind::UnsupportedOptionalHeaderFormat, o))
    } else if s.len() - o < optional_size(u16_at(s, o)) {
        Some(err_at(ErrorKind::UnexpectedEnd, o))
    } else {
        None
    }
}

/// Decodes the scalar block of an optional header at the cursor: its magic
/// selects one of the two layouts, and only that one is read.
pub fn decode_optional_header(cur: &mut ByteCursor) -> (r: Result<OptionalHeader, PeError>)
    requires
        old(cur).wf(),
    ensures
        final(cur).wf(),
        final(cur).bytes() == old(cur).bytes(),
        match optional_header_error(old(cur).bytes(), old(cur).pos()) {
            Some(e) => r == Err::<OptionalHeader, PeError>(e),
            None => r == Ok::<OptionalHeader, PeError>(
                optional_header_at(old(cur).bytes(), old(cur).pos()),
            ) && final(cur).pos() == old(cur).pos() + optional_size(
                u16_at(old(cur).bytes(), old(cur).pos()),
            ),
        },
{
    let start = cur.offset();
    let magic = cur.read_u16()?;
    if magic == PE32_MAGIC {
        if cur.remaining_len() < OPTIONAL32_SIZE - 2 {
            return Err(PeError::new(ErrorKind::UnexpectedEnd, start));
        }
        decode_optional32_rest(cur, magic)
    } else if magic == PE32_PLUS_MAGIC {
        if cur.remaining_len() < OPTIONAL64_SIZE - 2 {
            return Err(PeError::new(ErrorKind::UnexpectedEnd, start));
        }
        decode_optional64_rest(cur, magic)
    } else {
        Err(PeError::new(ErrorKind::UnsupportedOptionalHeaderFormat, start))
    }
}

/// Decodes `count` data-directory entries at the cursor.
pub fn decode_data_directories(cur: &mut ByteCursor, count: u32) -> (r: Result<Vec<DataDirectory>, PeError>)
    requires
        old(cur).wf(),
        count <= DIRECTORY_CAPACITY,
    ensures
        final(cur).wf(),
        final(cur).bytes() == old(cur).bytes(),
        old(cur).remaining() < DIRECTORY_ENTRY_SIZE * count ==> r == Err::<Vec<DataDirectory>, PeError>(
            err_at(ErrorKind::UnexpectedEnd, old(cur).pos()),
        ),
        old(cur).remaining() >= DIRECTORY_ENTRY_SIZE * count ==> r is Ok && r->Ok_0@ == directories_at(
            old(cur).bytes(),
            old(cur).pos(),
            count as nat,
        ) && final(cur).pos() == old(cur).pos() + DIRECTORY_ENTRY_SIZE * count,
{
    let n = count as usize;
    if cur.remaining_len() < DIRECTORY_ENTRY_SIZE * n {
        return Err(PeError::new(ErrorKind::UnexpectedEnd, cur.offset()));
    }
    let ghost s = cur.bytes();
    let ghost q = cur.pos();
    let mut out: Vec<DataDirectory> = Vec::new();
    let mut i: usize = 0;
    while i < n
        invariant
            s == old(cur).bytes(),
            q == old(cur).pos(),
            n == count,
            n <= DIRECTORY_CAPACITY,
            cur.wf(),
            cur.bytes() == s,
            i <= n,
            s.len() - q >= DIRECTORY_ENTRY_SIZE * n,
            cur.pos() == q + DIRECTORY_ENTRY_SIZE * i,
            out@ == directories_at(s, q, i as nat),
        decreases n - i,
    {
        let virtual_address = cur.read_u32()?;
        let size = cur.read_u32()?;
        out.push(DataDirectory { virtual_address, size });
        i = i + 1;
        assert(out@ =~= directories_at(s, q, i as nat));
    }
    Ok(out)
}

/// Where the data-directory table of a modern header at `p` starts: right
/// after the scalar block of its optional header.
pub open spec fn directory_table_start(s: Seq<u8>, p: int) -> int {
    let o = p + 4 + FILE_HEADER_SIZE;
    o + optional_size(u16_at(s, o))
}

/// The directory count declared by the modern header at `p`.
pub open spec fn declared_directory_count(s: Seq<u8>, p: int) -> u32 {
    optional_header_at(s, p + 4 + FILE_HEADER_SIZE).number_of_rva_and_sizes
}

/// Where decoding a well-formed modern header at `p` stops.
pub open spec fn modern_header_end(s: Seq<u8>, p: int) -> int {
    directory_table_start(s, p) + DIRECTORY_ENTRY_SIZE * declared_directory_count(s, p)
}

/// Why decoding a modern header at `p` fails, if it does, in the order the
/// checks are made.
pub open spec fn modern_header_error(s: Seq<u8>, p: int) -> Option<PeError> {
    let o = p + 4 + FILE_HEADER_SIZE;
    if s.len() - p < 4 {
        Some(err_at(ErrorKind::UnexpectedEnd, p))
    } else if u32_at(s, p) != SIGNATURE {
        Some(err_at(ErrorKind::InvalidSignature, p))
    } else if s.len() - (p + 4) < FILE_HEADER_SIZE {
        Some(err_at(ErrorKind::UnexpectedEnd, p + 4))
    } else if optional_header_error(s, o) is Some {
        optional_header_error(s, o)
    } else if declared_directory_count(s, p) > DIRECTORY_CAPACITY {
        Some(err_at(ErrorKind::DirectoryCountOutOfRange, directory_table_start(s, p) - 4))
    } else if s.len() - directory_table_start(s, p) < DIRECTORY_ENTRY_SIZE * declared_directory_count(
        s,
        p,
    ) {
        Some(err_at(ErrorKind::UnexpectedEnd, directory_table_start(s, p)))
    } else {
        None
    }
}

/// `h` holds exactly the modern header stored from `p` on.
pub open spec fn modern_header_at(h: ModernHeader, s: Seq<u8>, p: int) -> bool {
    &&& h.signature == u32_at(s, p)
    &&& h.file_header == file_header_at(s, p + 4)
    &&& h.optional_header == optional_header_at(s, p + 4 + FILE_HEADER_SIZE)
    &&& h.data_directory@ == directories_at(
        s,
        directory_table_start(s, p),
        declared_directory_count(s, p) as nat,
    )
}

/// Decodes a modern header at the cursor: signature, file header, optional
/// header, then as many directory entries as the optional header declares.
pub fn decode_modern_header(cur: &mut ByteCursor) -> (r: Result<ModernHeader, PeError>)
    requires
        old(cur).wf(),
    ensures
        final(cur).wf(),
        final(cur).bytes() == old(cur).bytes(),
        match modern_header_error(old(cur).bytes(), old(cur).pos()) {
            Some(e) => r == Err::<ModernHeader, PeError>(e),
            None => r is Ok && modern_header_at(r->Ok_0, old(cur).bytes(), old(cur).pos())
                && final(cur).pos() == modern_header_end(old(cur).bytes(), old(cur).pos()),
        },
{
    let start = cur.offset();
    let signature = cur.read_u32()?;
    if signature != SIGNATURE {
        return Err(PeError::new(ErrorKind::InvalidSignature, start));
    }
    let file_header = decode_file_header(cur)?;
    let optional_header = decode_optional_header(cur)?;
    let count = optional_header.number_of_rva_and_sizes;
    if count > DIRECTORY_CAPACITY {
        return Err(PeError::new(ErrorKind::DirectoryCountOutOfRange, cur.offset() - 4));
    }
    let data_directory = decode_data_directories(cur, count)?;
    Ok(ModernHeader { signature, file_header, optional_header, data_directory })
}

/// The declared directory count decides the table. Above the capacity the
/// decode fails with `DirectoryCountOutOfRange` at the count field. At or
/// below it, when the entries are there, the decode succeeds, reads exactly
/// that many entries in their stored order, none skipped, and stops that many
/// entries after the scalar block (no further than the block for a count of
/// zero).
pub proof fn lemma_directory_count(s: Seq<u8>, p: int)
    requires
        0 <= p,
        s.len() - p >= 4 + FILE_HEADER_SIZE,
        u32_at(s, p) == SIGNATURE,
        optional_header_error(s, p + 4 + FILE_HEADER_SIZE) is None,
    ensures
        declared_directory_count(s, p) > DIRECTORY_CAPACITY ==> modern_header_error(s, p) == Some(
            err_at(ErrorKind::DirectoryCountOutOfRange, directory_table_start(s, p) - 4),
        ),
        declared_directory_count(s, p) <= DIRECTORY_CAPACITY && s.len() - directory_table_start(s, p)
            >= DIRECTORY_ENTRY_SIZE * declared_directory_count(s, p) ==> {
            &&& modern_header_error(s, p) is None
            &&& modern_header_end(s, p) == directory_table_start(s, p) + DIRECTORY_ENTRY_SIZE
                * declared_directory_count(s, p)
            &&& forall|h: ModernHeader| #[trigger]
                modern_header_at(h, s, p) ==> {
                    &&& h.data_directory@.len() == declared_directory_count(s, p)
                    &&& forall|i: int|
                        0 <= i < declared_directory_count(s, p) ==> #[trigger] h.data_directory@[i]
                            == DataDirectory {
                            virtual_address: u32_at(s, directory_table_start(s, p) + 8 * i),
                            size: u32_at(s, directory_table_start(s, p) + 8 * i + 4),
                        }
                }
        },
{
}

} // verus!
