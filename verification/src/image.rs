//! Parser for the program-header-based executable image format.
//!
//! The loader receives the kernel as raw file bytes. This module checks that
//! the buffer is a well-formed 64-bit image of the expected class and
//! extracts the entry-point field and the program-header table, each field
//! pinned to the exact little-endian bytes it came from.

use vstd::bytes::*;
use vstd::prelude::*;

verus! {

/// Program-header type tag for a loadable segment.
pub const SEGMENT_TYPE_LOAD: u32 = 1;

/// Program-header type tag for a dynamic-linking segment.
pub const SEGMENT_TYPE_DYNAMIC: u32 = 2;

/// Flag bit marking a segment as executable.
pub const SEGMENT_FLAG_EXECUTE: u32 = 1;

/// Size in bytes of the fixed image header.
pub const IMAGE_HEADER_SIZE: usize = 64;

/// Size in bytes of one entry of the program-header table.
pub const PROGRAM_HEADER_SIZE: usize = 56;

/// Why a byte buffer was rejected as an image.
#[derive(Clone, Copy, Debug, PartialEq, Eq, Structural)]
pub enum ElfError {
    /// The buffer is shorter than the fixed image header.
    TooShort,
    /// The four magic bytes are wrong.
    BadMagic,
    /// The image is not of the 64-bit class.
    UnsupportedClass,
    /// The header's program-header entry size is not the 64-bit one.
    BadProgramHeaderSize,
    /// The program-header table runs past the end of the buffer.
    HeadersOutOfRange,
    /// A loadable segment's file range runs past the end of the buffer,
    /// or claims less room in memory than in the file.
    SegmentOutOfRange,
}

/// One entry of the program-header table, as plain values.
#[derive(Clone, Copy, Debug, PartialEq, Eq, Structural)]
pub struct ProgramHeader {
    /// Segment type tag.
    pub p_type: u32,
    /// Permission flags.
    pub flags: u32,
    /// Offset of the segment's bytes within the file.
    pub offset: u64,
    /// Virtual address the segment asks to live at.
    pub vaddr: u64,
    /// Number of bytes present in the file.
    pub file_size: u64,
    /// Number of bytes the segment occupies in memory.
    pub mem_size: u64,
}

/// The parsed image: its declared entry address and program-header table.
#[derive(Debug)]
pub struct ElfImage {
    /// The header's entry-point field, verbatim.
    pub entry: u64,
    /// All program headers, in table order.
    pub headers: Vec<ProgramHeader>,
}

/// The 16-bit little-endian value at `off`.
pub open spec fn spec_le16(b: Seq<u8>, off: int) -> u16 {
    spec_u16_from_le_bytes(b.subrange(off, off + 2))
}

/// The 32-bit little-endian value at `off`.
pub open spec fn spec_le32(b: Seq<u8>, off: int) -> u32 {
    spec_u32_from_le_bytes(b.subrange(off, off + 4))
}

/// The 64-bit little-endian value at `off`.
pub open spec fn spec_le64(b: Seq<u8>, off: int) -> u64 {
    spec_u64_from_le_bytes(b.subrange(off, off + 8))
}

/// The four magic bytes are present and correct.
pub open spec fn magic_ok(b: Seq<u8>) -> bool {
    b.len() >= 4 && b[0] == 0x7fu8 && b[1] == 0x45u8 && b[2] == 0x4cu8 && b[3] == 0x46u8
}

/// The class byte declares a 64-bit image.
pub open spec fn class_ok(b: Seq<u8>) -> bool {
    b.len() >= 5 && b[4] == 2u8
}

/// The header's entry-point field.
pub open spec fn spec_entry(b: Seq<u8>) -> u64 {
    spec_le64(b, 24)
}

/// Offset of the program-header table.
pub open spec fn spec_phoff(b: Seq<u8>) -> u64 {
    spec_le64(b, 32)
}

/// Declared size of one program-header entry.
pub open spec fn spec_phentsize(b: Seq<u8>) -> u16 {
    spec_le16(b, 54)
}

/// Number of program-header entries.
pub open spec fn spec_phnum(b: Seq<u8>) -> u16 {
    spec_le16(b, 56)
}

/// The whole program-header table lies within the buffer.
pub open spec fn table_in_range(b: Seq<u8>) -> bool {
    spec_phoff(b) + spec_phnum(b) * (PROGRAM_HEADER_SIZE as int) <= b.len()
}

/// Start of the `i`-th program-header entry.
pub open spec fn spec_ph_base(b: Seq<u8>, i: int) -> int {
    spec_phoff(b) + i * (PROGRAM_HEADER_SIZE as int)
}

/// The `i`-th program header, field by field.
pub open spec fn spec_program_header(b: Seq<u8>, i: int) -> ProgramHeader {
    let base = spec_ph_base(b, i);
    ProgramHeader {
        p_type: spec_le32(b, base),
        flags: spec_le32(b, base + 4),
        offset: spec_le64(b, base + 8),
        vaddr: spec_le64(b, base + 16),
        file_size: spec_le64(b, base + 32),
        mem_size: spec_le64(b, base + 40),
    }
}

/// Everything the parser checks before trusting the header table.
pub open spec fn image_well_formed(b: Seq<u8>) -> bool {
    &&& b.len() >= IMAGE_HEADER_SIZE
    &&& magic_ok(b)
    &&& class_ok(b)
    &&& spec_phentsize(b) == PROGRAM_HEADER_SIZE
    &&& table_in_range(b)
}

/// Reads the 16-bit little-endian value at `off`.
pub fn read_le16(bytes: &Vec<u8>, off: usize) -> (r: u16)
    requires
        off + 2 <= bytes.len(),
    ensures
        r == spec_le16(bytes@, off as int),
{
    u16_from_le_bytes(&bytes[off..off + 2])
}

/// Reads the 32-bit little-endian value at `off`.
pub fn read_le32(bytes: &Vec<u8>, off: usize) -> (r: u32)
    requires
        off + 4 <= bytes.len(),
    ensures
        r == spec_le32(bytes@, off as int),
{
    u32_from_le_bytes(&bytes[off..off + 4])
}

/// Reads the 64-bit little-endian value at `off`.
pub fn read_le64(bytes: &Vec<u8>, off: usize) -> (r: u64)
    requires
        off + 8 <= bytes.len(),
    ensures
        r == spec_le64(bytes@, off as int),
{
    u64_from_le_bytes(&bytes[off..off + 8])
}

/// Parses the program-header table entry starting at `base`.
fn read_program_header(bytes: &Vec<u8>, base: usize, i: Ghost<int>) -> (r: ProgramHeader)
    requires
        base + PROGRAM_HEADER_SIZE <= bytes.len(),
        base == spec_ph_base(bytes@, i@),
    ensures
        r == spec_program_header(bytes@, i@),
{
    ProgramHeader {
        p_type: read_le32(bytes, base),
        flags: read_le32(bytes, base + 4),
        offset: read_le64(bytes, base + 8),
        vaddr: read_le64(bytes, base + 16),
        file_size: read_le64(bytes, base + 32),
        mem_size: read_le64(bytes, base + 40),
    }
}

/// Parses an image buffer.
///
/// Succeeds exactly on well-formed buffers: long enough for the fixed
/// header, magic bytes and 64-bit class present, 64-bit program-header
/// entry size, and the whole header table inside the buffer. On success the
/// entry field is returned verbatim and every program header is decoded in
/// table order.
pub fn parse_image(bytes: &Vec<u8>) -> (r: Result<ElfImage, ElfError>)
    ensures
        r is Ok <==> image_well_formed(bytes@),
        r == Err::<ElfImage, ElfError>(ElfError::TooShort) <==> bytes@.len() < IMAGE_HEADER_SIZE,
        bytes@.len() >= IMAGE_HEADER_SIZE && !magic_ok(bytes@) <==> r == Err::<
            ElfImage,
            ElfError,
        >(ElfError::BadMagic),
        bytes@.len() >= IMAGE_HEADER_SIZE && magic_ok(bytes@) && !class_ok(bytes@) <==> r == Err::<
            ElfImage,
            ElfError,
        >(ElfError::UnsupportedClass),
        bytes@.len() >= IMAGE_HEADER_SIZE && magic_ok(bytes@) && class_ok(bytes@) && spec_phentsize(
            bytes@,
        ) != PROGRAM_HEADER_SIZE <==> r == Err::<ElfImage, ElfError>(ElfError::BadProgramHeaderSize),
        bytes@.len() >= IMAGE_HEADER_SIZE && magic_ok(bytes@) && class_ok(bytes@) && spec_phentsize(
            bytes@,
        ) == PROGRAM_HEADER_SIZE && !table_in_range(bytes@) <==> r == Err::<ElfImage, ElfError>(
            ElfError::HeadersOutOfRange,
        ),
        r matches Ok(img) ==> {
            &&& img.entry == spec_entry(bytes@)
            &&& img.headers.len() == spec_phnum(bytes@)
            &&& forall|i: int|
                0 <= i < img.headers.len() ==> img.headers[i] == spec_program_header(bytes@, i)
        },
{
    if bytes.len() < IMAGE_HEADER_SIZE {
        return Err(ElfError::TooShort);
    }
    if !(bytes[0] == 0x7f && bytes[1] == 0x45 && bytes[2] == 0x4c && bytes[3] == 0x46) {
        return Err(ElfError::BadMagic);
    }
    if bytes[4] != 2 {
        return Err(ElfError::UnsupportedClass);
    }
    let phentsize = read_le16(bytes, 54);
    if phentsize as usize != PROGRAM_HEADER_SIZE {
        return Err(ElfError::BadProgramHeaderSize);
    }
    let entry = read_le64(bytes, 24);
    let phoff = read_le64(bytes, 32);
    let phnum = read_le16(bytes, 56);
    let table_bytes: u64 = (phnum as u64) * (PROGRAM_HEADER_SIZE as u64);
    if phoff > u64::MAX - table_bytes || phoff + table_bytes > bytes.len() as u64 {
        return Err(ElfError::HeadersOutOfRange);
    }
    let phoff_us = phoff as usize;
    let mut headers: Vec<ProgramHeader> = Vec::new();
    let mut i: usize = 0;
    while i < phnum as usize
        invariant
            image_well_formed(bytes@),
            bytes@.len() <= usize::MAX,
            phoff == spec_phoff(bytes@),
            phnum == spec_phnum(bytes@),
            phoff_us == phoff,
            phoff + phnum * (PROGRAM_HEADER_SIZE as int) <= bytes@.len(),
            i <= phnum,
            headers.len() == i,
            forall|j: int| 0 <= j < i ==> headers[j] == spec_program_header(bytes@, j),
        decreases phnum - i,
    {
        proof {
            assert((i as int) * (PROGRAM_HEADER_SIZE as int) + (PROGRAM_HEADER_SIZE as int) <= (
            phnum as int) * (PROGRAM_HEADER_SIZE as int)) by (nonlinear_arith)
                requires
                    (i as int) < (phnum as int),
            ;
            assert((phoff_us as int) + (i as int) * (PROGRAM_HEADER_SIZE as int) + (
            PROGRAM_HEADER_SIZE as int) <= bytes@.len());
        }
        let base = phoff_us + i * PROGRAM_HEADER_SIZE;
        let ph = read_program_header(bytes, base, Ghost(i as int));
        headers.push(ph);
        i += 1;
    }
    Ok(ElfImage { entry, headers })
}

} // verus!
