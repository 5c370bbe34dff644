use polished_boot::image::{parse_image, ElfError};
use polished_boot::loader::{plan_image, MemoryKind};
use polished_boot::logging::SerialLogger;
use polished_boot::boot::load_kernel;

struct SegmentSpec {
    p_type: u32,
    flags: u32,
    offset: u64,
    vaddr: u64,
    file_size: u64,
    mem_size: u64,
}

fn put_u16(buf: &mut [u8], off: usize, v: u16) {
    buf[off..off + 2].copy_from_slice(&v.to_le_bytes());
}

fn put_u32(buf: &mut [u8], off: usize, v: u32) {
    buf[off..off + 4].copy_from_slice(&v.to_le_bytes());
}

fn put_u64(buf: &mut [u8], off: usize, v: u64) {
    buf[off..off + 8].copy_from_slice(&v.to_le_bytes());
}

/// Builds a minimal 64-bit image: the fixed header, a program-header
/// table right after it, and whatever file content the headers point at.
fn build_image(entry: u64, segments: &[SegmentSpec], file_len: usize) -> Vec<u8> {
    let phoff = 64usize;
    let mut image = vec![0u8; file_len];
    image[0] = 0x7f;
    image[1] = 0x45;
    image[2] = 0x4c;
    image[3] = 0x46;
    image[4] = 2;
    put_u64(&mut image, 24, entry);
    put_u64(&mut image, 32, phoff as u64);
    put_u16(&mut image, 54, 56);
    put_u16(&mut image, 56, segments.len() as u16);
    for (i, seg) in segments.iter().enumerate() {
        let base = phoff + i * 56;
        put_u32(&mut image, base, seg.p_type);
        put_u32(&mut image, base + 4, seg.flags);
        put_u64(&mut image, base + 8, seg.offset);
        put_u64(&mut image, base + 16, seg.vaddr);
        put_u64(&mut image, base + 32, seg.file_size);
        put_u64(&mut image, base + 40, seg.mem_size);
    }
    image
}

#[test]
fn test_plan_page_aligned_segment() {
    let seg = SegmentSpec {
        p_type: 1,
        flags: 1,
        offset: 200,
        vaddr: 0x20_1000,
        file_size: 100,
        mem_size: 4096,
    };
    let mut image = build_image(0x20_1000, &[seg], 512);
    for i in 0..100usize {
        image[200 + i] = (i as u8).wrapping_mul(3);
    }
    let plan = plan_image(&image).unwrap();
    assert_eq!(plan.segments.len(), 1);
    let s = &plan.segments[0];
    assert_eq!(s.placement.aligned_vaddr, 0x20_1000);
    assert_eq!(s.placement.page_offset, 0);
    assert_eq!(s.placement.pages, 1);
    assert!(s.placement.kind == MemoryKind::Code);
    assert_eq!(s.contents.len(), 4096);
    for i in 0..100usize {
        assert_eq!(s.contents[i], (i as u8).wrapping_mul(3));
    }
    for i in 100..4096usize {
        assert_eq!(s.contents[i], 0);
    }
}

#[test]
fn test_plan_straddling_segment() {
    let seg = SegmentSpec {
        p_type: 1,
        flags: 0,
        offset: 128,
        vaddr: 0x20_1ff0,
        file_size: 32,
        mem_size: 64,
    };
    let image = build_image(0x20_1ff0, &[seg], 256);
    let plan = plan_image(&image).unwrap();
    let s = &plan.segments[0];
    assert_eq!(s.placement.aligned_vaddr, 0x20_1000);
    assert_eq!(s.placement.page_offset, 0xff0);
    assert_eq!(s.placement.pages, 2);
    assert!(s.placement.kind == MemoryKind::Data);
    assert_eq!(s.contents.len(), 64);
}

#[test]
fn test_entry_returned_verbatim() {
    let image = build_image(0xdead_beef_1234_5678, &[], 64);
    let img = parse_image(&image).unwrap();
    assert_eq!(img.entry, 0xdead_beef_1234_5678);
    let plan = plan_image(&image).unwrap();
    assert_eq!(plan.entry, 0xdead_beef_1234_5678);
}

#[test]
fn test_one_mapping_per_loadable_segment() {
    let segs = [
        SegmentSpec { p_type: 1, flags: 1, offset: 300, vaddr: 0x1000, file_size: 8, mem_size: 16 },
        SegmentSpec { p_type: 2, flags: 0, offset: 0, vaddr: 0, file_size: 0, mem_size: 0 },
        SegmentSpec { p_type: 1, flags: 0, offset: 320, vaddr: 0x3000, file_size: 4, mem_size: 4 },
        SegmentSpec { p_type: 7, flags: 0, offset: 0, vaddr: 0, file_size: 0, mem_size: 0 },
        SegmentSpec { p_type: 1, flags: 0, offset: 330, vaddr: 0x5000, file_size: 0, mem_size: 32 },
    ];
    let image = build_image(0x1000, &segs, 512);
    let plan = plan_image(&image).unwrap();
    assert_eq!(plan.segments.len(), 3);
    assert_eq!(plan.dynamic_headers, vec![1usize]);
    assert_eq!(plan.segments[0].vaddr, 0x1000);
    assert_eq!(plan.segments[1].vaddr, 0x3000);
    assert_eq!(plan.segments[2].vaddr, 0x5000);
    // The zero-fill tail is written only where the in-memory size exceeds
    // the file size.
    assert_eq!(plan.segments[1].contents.len(), 4);
    assert_eq!(plan.segments[2].contents, vec![0u8; 32]);
}

#[test]
fn test_dynamic_segment_skipped_with_warning() {
    let segs = [
        SegmentSpec { p_type: 2, flags: 0, offset: 0, vaddr: 0, file_size: 0, mem_size: 0 },
        SegmentSpec { p_type: 1, flags: 0, offset: 200, vaddr: 0x7000, file_size: 8, mem_size: 8 },
    ];
    let image = build_image(0x7000, &segs, 256);
    let mut log = SerialLogger::new();
    let plan = load_kernel("\\EFI\\BOOT\\kernel", &image, &mut log).unwrap();
    assert_eq!(plan.segments.len(), 1);
    assert_eq!(plan.dynamic_headers, vec![0usize]);
    let text = String::from_utf8(log.out.clone()).unwrap();
    let expected = "[INFO] Loading kernel from ELF file: \\EFI\\BOOT\\kernel\r\n\
                    [WARNING] Skipping dynamic segment\r\n\
                    [INFO] Loading segment: file_offset=0xc8, file_size=0x8, mem_size=0x8, virt_addr=0x7000\r\n\
                    [INFO] Allocating 1 pages at 0x7000 (mem_type: Data)\r\n\
                    [INFO] Segment loaded at 0x7000\r\n\
                    [INFO] Kernel entry point: 0x7000\r\n";
    assert_eq!(text, expected);
}

#[test]
fn test_parse_rejects_bad_magic() {
    let mut image = build_image(0, &[], 64);
    image[1] = 0x00;
    assert_eq!(parse_image(&image).unwrap_err(), ElfError::BadMagic);
}

#[test]
fn test_parse_rejects_short_buffer() {
    let image = vec![0x7fu8; 32];
    assert_eq!(parse_image(&image).unwrap_err(), ElfError::TooShort);
}

#[test]
fn test_parse_rejects_wrong_class() {
    let mut image = build_image(0, &[], 64);
    image[4] = 1;
    assert_eq!(parse_image(&image).unwrap_err(), ElfError::UnsupportedClass);
}

#[test]
fn test_plan_rejects_segment_past_end() {
    let seg = SegmentSpec {
        p_type: 1,
        flags: 0,
        offset: 1000,
        vaddr: 0x1000,
        file_size: 1000,
        mem_size: 1000,
    };
    let image = build_image(0, &[seg], 256);
    assert_eq!(plan_image(&image).unwrap_err(), ElfError::SegmentOutOfRange);
}

#[test]
fn test_parse_rejects_wrong_header_entry_size() {
    let mut image = build_image(0, &[], 64);
    put_u16(&mut image, 54, 48);
    assert_eq!(parse_image(&image).unwrap_err(), ElfError::BadProgramHeaderSize);
}

#[test]
fn test_parse_rejects_table_past_end() {
    let mut image = build_image(0, &[], 64);
    put_u16(&mut image, 56, 3);
    assert_eq!(parse_image(&image).unwrap_err(), ElfError::HeadersOutOfRange);
}
