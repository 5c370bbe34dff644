//! Address-directed mapping of loadable segments.
//!
//! For every loadable program header the loader computes where whole pages
//! must be allocated, classifies the memory as code or data, and produces the
//! exact bytes that belong at the segment's place in memory: the file bytes
//! first, then the zero-filled tail. Dynamic-linking segments are never
//! mapped; they are only reported so the caller can warn about them.

use crate::image::{
    parse_image, class_ok, image_well_formed, magic_ok, spec_entry, spec_phentsize, spec_phnum,
    spec_program_header, table_in_range, ElfError, ElfImage, ProgramHeader, IMAGE_HEADER_SIZE,
    PROGRAM_HEADER_SIZE, SEGMENT_FLAG_EXECUTE, SEGMENT_TYPE_DYNAMIC, SEGMENT_TYPE_LOAD,
};
use crate::PAGE_SIZE;
use vstd::arithmetic::div_mod::lemma_hoist_over_denominator;
use vstd::prelude::*;

verus! {

/// How an allocation is typed for the firmware's memory bookkeeping.
#[derive(Clone, Copy, Debug, PartialEq, Eq, Structural)]
pub enum MemoryKind {
    /// Executable-code memory.
    Code,
    /// Plain data memory.
    Data,
}

/// Where a segment's pages go and how they are typed.
#[derive(Clone, Copy, Debug, PartialEq, Eq, Structural)]
pub struct SegmentPlacement {
    /// The segment's virtual address rounded down to a page boundary.
    pub aligned_vaddr: u64,
    /// Distance from `aligned_vaddr` to the requested virtual address.
    pub page_offset: u64,
    /// Number of whole pages the allocation must cover.
    pub pages: u64,
    /// Memory type the allocation is requested with.
    pub kind: MemoryKind,
}

/// One mapped segment: its placement and the bytes the loader writes,
/// starting `page_offset` bytes into the allocation.
#[derive(Debug)]
pub struct LoadedSegment {
    /// The virtual address the image asked for, verbatim.
    pub vaddr: u64,
    /// How many of the written bytes come from the file.
    pub file_size: u64,
    /// Pages to allocate and how to type them.
    pub placement: SegmentPlacement,
    /// The `mem_size` bytes to place at `vaddr`: file content, then zeros.
    pub contents: Vec<u8>,
}

/// Everything the loader decides for one image: the entry address, the
/// mapped segments in table order, and which header indices were
/// dynamic-linking segments (skipped with a warning, never mapped).
#[derive(Debug)]
pub struct LoadPlan {
    /// The image header's entry field, verbatim.
    pub entry: u64,
    /// One entry per loadable program header, in table order.
    pub segments: Vec<LoadedSegment>,
    /// Indices of dynamic-linking program headers, in table order.
    pub dynamic_headers: Vec<usize>,
}

/// True of program headers that describe a loadable segment.
pub open spec fn is_load(h: ProgramHeader) -> bool {
    h.p_type == SEGMENT_TYPE_LOAD
}

/// True of program headers that describe a dynamic-linking segment.
pub open spec fn is_dynamic(h: ProgramHeader) -> bool {
    h.p_type == SEGMENT_TYPE_DYNAMIC
}

/// The loadable headers of `hs`, in order.
pub open spec fn loads_of(hs: Seq<ProgramHeader>) -> Seq<ProgramHeader>
    decreases hs.len(),
{
    if hs.len() == 0 {
        Seq::empty()
    } else {
        loads_of(hs.drop_last()) + if is_load(hs.last()) {
            seq![hs.last()]
        } else {
            Seq::empty()
        }
    }
}

/// The indices of the dynamic-linking headers of `hs`, in order.
pub open spec fn dynamics_of(hs: Seq<ProgramHeader>) -> Seq<int>
    decreases hs.len(),
{
    if hs.len() == 0 {
        Seq::empty()
    } else {
        dynamics_of(hs.drop_last()) + if is_dynamic(hs.last()) {
            seq![hs.len() - 1]
        } else {
            Seq::empty()
        }
    }
}

/// The placement a program header calls for: virtual address aligned down,
/// page count the ceiling of the spilled size, code typing from the execute
/// flag.
pub open spec fn spec_placement(h: ProgramHeader) -> SegmentPlacement {
    SegmentPlacement {
        aligned_vaddr: (h.vaddr - h.vaddr % (PAGE_SIZE as u64)) as u64,
        page_offset: (h.vaddr % (PAGE_SIZE as u64)) as u64,
        pages: (((h.vaddr % (PAGE_SIZE as u64)) + h.mem_size + (PAGE_SIZE - 1)) / (
        PAGE_SIZE as int)) as u64,
        kind: if h.flags & SEGMENT_FLAG_EXECUTE != 0 {
            MemoryKind::Code
        } else {
            MemoryKind::Data
        },
    }
}

/// The bytes the loader writes for header `h`: the file bytes, then the
/// zero-filled tail up to the in-memory size.
pub open spec fn spec_segment_bytes(b: Seq<u8>, h: ProgramHeader) -> Seq<u8> {
    b.subrange(h.offset as int, h.offset + h.file_size) + Seq::new(
        (h.mem_size - h.file_size) as nat,
        |i: int| 0u8,
    )
}

/// A loadable header the loader can act on: its file range lies inside the
/// image, it claims at least as much memory as file content, and its
/// in-memory size fits the machine.
pub open spec fn segment_loadable_ok(b: Seq<u8>, h: ProgramHeader) -> bool {
    &&& h.offset + h.file_size <= b.len()
    &&& h.file_size <= h.mem_size
    &&& h.mem_size <= usize::MAX
}

/// A buffer the loader accepts outright: a well-formed image whose loadable
/// segments are all actionable.
pub open spec fn image_loadable(b: Seq<u8>) -> bool {
    &&& image_well_formed(b)
    &&& forall|i: int|
        0 <= i < spec_phnum(b) && is_load(#[trigger] spec_program_header(b, i))
            ==> segment_loadable_ok(b, spec_program_header(b, i))
}

/// The error the loader reports for a buffer it rejects.
pub open spec fn spec_load_error(b: Seq<u8>) -> ElfError {
    if b.len() < IMAGE_HEADER_SIZE {
        ElfError::TooShort
    } else if !magic_ok(b) {
        ElfError::BadMagic
    } else if !class_ok(b) {
        ElfError::UnsupportedClass
    } else if spec_phentsize(b) != PROGRAM_HEADER_SIZE {
        ElfError::BadProgramHeaderSize
    } else if !table_in_range(b) {
        ElfError::HeadersOutOfRange
    } else {
        ElfError::SegmentOutOfRange
    }
}

/// Computes a loadable segment's placement.
///
/// The aligned address is the greatest page boundary not above the virtual
/// address, and the page count is exactly the ceiling of
/// `page_offset + mem_size` over the page size.
pub fn placement_for(h: &ProgramHeader) -> (p: SegmentPlacement)
    ensures
        p == spec_placement(*h),
        p.aligned_vaddr <= h.vaddr < p.aligned_vaddr + PAGE_SIZE,
        p.aligned_vaddr % (PAGE_SIZE as u64) == 0,
        p.page_offset == h.vaddr - p.aligned_vaddr,
        p.pages == (p.page_offset + h.mem_size + (PAGE_SIZE - 1)) as int / (PAGE_SIZE as int),
{
    let aligned = crate::align_down_to_page(h.vaddr);
    let page_offset = h.vaddr - aligned;
    // Split the size into whole pages and a remainder so the ceiling can be
    // taken without overflowing.
    let full_pages = h.mem_size / (PAGE_SIZE as u64);
    let rem = h.mem_size % (PAGE_SIZE as u64);
    let pages = full_pages + (rem + page_offset + (PAGE_SIZE as u64 - 1)) / (PAGE_SIZE as u64);
    proof {
        let ps = PAGE_SIZE as int;
        let spill = rem + page_offset + (ps - 1);
        lemma_hoist_over_denominator(spill, full_pages as int, PAGE_SIZE as nat);
        assert(full_pages * ps == ps * full_pages) by (nonlinear_arith);
        assert(h.mem_size == ps * full_pages + rem) by (nonlinear_arith)
            requires
                full_pages == h.mem_size as int / ps,
                rem == h.mem_size as int % ps,
                ps == 4096,
        ;
    }
    SegmentPlacement {
        aligned_vaddr: aligned,
        page_offset,
        pages,
        kind: if h.flags & SEGMENT_FLAG_EXECUTE != 0 {
            MemoryKind::Code
        } else {
            MemoryKind::Data
        },
    }
}

/// Produces the bytes the loader writes for loadable header `h`: exactly
/// `file_size` bytes copied from the image at the header's file offset,
/// followed by `mem_size - file_size` zero bytes.
pub fn fill_segment(image: &Vec<u8>, h: &ProgramHeader) -> (contents: Vec<u8>)
    requires
        segment_loadable_ok(image@, *h),
    ensures
        contents@ == spec_segment_bytes(image@, *h),
        contents.len() == h.mem_size,
        forall|i: int| 0 <= i < h.file_size ==> contents[i] == image[h.offset + i],
        forall|i: int| h.file_size <= i < h.mem_size ==> contents[i] == 0u8,
{
    let img_len: usize = image.len();
    let mem_size = h.mem_size as usize;
    let file_size = h.file_size as usize;
    let offset = h.offset as usize;
    let mut contents: Vec<u8> = Vec::with_capacity(mem_size);
    let mut i: usize = 0;
    while i < file_size
        invariant
            i <= file_size,
            file_size == h.file_size,
            offset == h.offset,
            offset + file_size <= image.len(),
            contents.len() == i,
            forall|j: int| 0 <= j < i ==> contents[j] == image[offset + j],
        decreases file_size - i,
    {
        contents.push(image[offset + i]);
        i += 1;
    }
    while i < mem_size
        invariant
            file_size <= i <= mem_size,
            file_size == h.file_size,
            mem_size == h.mem_size,
            offset == h.offset,
            contents.len() == i,
            forall|j: int| 0 <= j < file_size ==> contents[j] == image[offset + j],
            forall|j: int| file_size <= j < i ==> contents[j] == 0u8,
        decreases mem_size - i,
    {
        contents.push(0u8);
        i += 1;
    }
    proof {
        assert(contents@ =~= spec_segment_bytes(image@, *h));
    }
    contents
}

/// Parses an image and decides every mapping the loader will make.
///
/// Succeeds exactly when the buffer parses as a well-formed image and every
/// loadable segment is actionable. On success: the entry field is returned
/// verbatim; there is exactly one mapped segment per loadable header, in
/// table order, each with its placement and its file-then-zeros content; and
/// the dynamic-linking header indices are reported, none of them mapped.
pub fn plan_image(bytes: &Vec<u8>) -> (r: Result<LoadPlan, ElfError>)
    ensures
        r is Ok <==> image_loadable(bytes@),
        r matches Err(e) ==> e == spec_load_error(bytes@),
        r matches Ok(plan) ==> {
            let hs = spec_headers(bytes@);
            let ls = loads_of(hs);
            &&& plan.entry == spec_entry(bytes@)
            &&& plan.segments.len() == ls.len()
            &&& forall|j: int|
                0 <= j < ls.len() ==> {
                    &&& (#[trigger] plan.segments[j]).vaddr == ls[j].vaddr
                    &&& plan.segments[j].file_size == ls[j].file_size
                    &&& plan.segments[j].placement == spec_placement(ls[j])
                    &&& plan.segments[j].contents@ == spec_segment_bytes(bytes@, ls[j])
                }
            &&& plan.dynamic_headers@.map_values(|u: usize| u as int) == dynamics_of(hs)
        },
{
    let img = match parse_image(bytes) {
        Ok(img) => img,
        Err(e) => {
            return Err(e);
        },
    };
    let mut segments: Vec<LoadedSegment> = Vec::new();
    let mut dynamic_headers: Vec<usize> = Vec::new();
    let n = img.headers.len();
    let mut i: usize = 0;
    while i < n
        invariant
            image_well_formed(bytes@),
            n == img.headers.len(),
            n == spec_phnum(bytes@),
            i <= n,
            forall|j: int| 0 <= j < n ==> img.headers[j] == spec_program_header(bytes@, j),
            img.entry == spec_entry(bytes@),
            forall|j: int|
                0 <= j < i && is_load(#[trigger] spec_program_header(bytes@, j))
                    ==> segment_loadable_ok(bytes@, spec_program_header(bytes@, j)),
            segments.len() == loads_of(spec_headers(bytes@).take(i as int)).len(),
            forall|j: int|
                0 <= j < segments.len() ==> {
                    let ls = loads_of(spec_headers(bytes@).take(i as int));
                    &&& (#[trigger] segments[j]).vaddr == ls[j].vaddr
                    &&& segments[j].file_size == ls[j].file_size
                    &&& segments[j].placement == spec_placement(ls[j])
                    &&& segments[j].contents@ == spec_segment_bytes(bytes@, ls[j])
                },
            dynamic_headers@.map_values(|u: usize| u as int) == dynamics_of(
                spec_headers(bytes@).take(i as int),
            ),
        decreases n - i,
    {
        let h = img.headers[i];
        proof {
            let hs = spec_headers(bytes@);
            assert(hs.take(i + 1).drop_last() =~= hs.take(i as int));
            assert(hs.take(i + 1).last() == hs[i as int]);
        }
        if h.p_type == SEGMENT_TYPE_DYNAMIC {
            dynamic_headers.push(i);
            proof {
                assert(dynamic_headers@.map_values(|u: usize| u as int) =~= dynamics_of(
                    spec_headers(bytes@).take(i + 1),
                ));
            }
        } else {
            proof {
                assert(dynamic_headers@.map_values(|u: usize| u as int) =~= dynamics_of(
                    spec_headers(bytes@).take(i + 1),
                ));
            }
        }
        if h.p_type == SEGMENT_TYPE_LOAD {
            let blen: usize = bytes.len();
            if h.file_size > h.mem_size || h.offset > u64::MAX - h.file_size || h.offset
                + h.file_size > blen as u64 {
                return Err(ElfError::SegmentOutOfRange);
            }
            if h.mem_size > usize::MAX as u64 {
                return Err(ElfError::SegmentOutOfRange);
            }
            let placement = placement_for(&h);
            let contents = fill_segment(bytes, &h);
            segments.push(
                LoadedSegment { vaddr: h.vaddr, file_size: h.file_size, placement, contents },
            );
        }
        i += 1;
    }
    proof {
        assert(spec_headers(bytes@).take(n as int) =~= spec_headers(bytes@));
    }
    Ok(LoadPlan { entry: img.entry, segments, dynamic_headers })
}

/// The whole program-header table of a well-formed buffer.
pub open spec fn spec_headers(b: Seq<u8>) -> Seq<ProgramHeader> {
    Seq::new(spec_phnum(b) as nat, |i: int| spec_program_header(b, i))
}


/// Every mapped segment comes from a loadable header: the filtered table
/// holds loadable headers only, so dynamic-linking segments are never
/// allocated or copied — the plan only reports them.
pub proof fn lemma_loads_are_loadable(hs: Seq<ProgramHeader>)
    ensures
        forall|j: int| 0 <= j < loads_of(hs).len() ==> is_load(#[trigger] loads_of(hs)[j]),
    decreases hs.len(),
{
    if hs.len() > 0 {
        lemma_loads_are_loadable(hs.drop_last());
        assert forall|j: int| 0 <= j < loads_of(hs).len() implies is_load(
            #[trigger] loads_of(hs)[j],
        ) by {
            if j < loads_of(hs.drop_last()).len() {
                assert(loads_of(hs)[j] == loads_of(hs.drop_last())[j]);
            } else {
                assert(is_load(hs.last()));
                assert(loads_of(hs)[j] == hs.last());
            }
        }
    }
}

} // verus!
