//! The loader's top level and the control-transfer protocol.
//!
//! Loading decides everything from the raw file bytes: the mappings, the
//! skipped dynamic-linking segments with their warnings, and the entry
//! address, which is carried to the final jump verbatim. The jump itself —
//! entry address into the instruction pointer, framebuffer description's
//! address into the first-argument register — is the one irrevocable step
//! and stays with the platform shim; what it is given is decided and
//! proved here.

use crate::framebuffer::FramebufferInfo;
use crate::image::{parse_image, spec_entry, ElfError, ProgramHeader};
use crate::loader::{
    dynamics_of, image_loadable, is_dynamic, is_load, loads_of, placement_for, plan_image,
    spec_headers, spec_load_error, spec_placement, spec_segment_bytes, LoadPlan, MemoryKind,
};
use crate::logging::{
    append_bytes, append_str, dec_bytes, hex_lower_bytes, logger_appended, spec_dec_bytes,
    spec_hex_lower_bytes, SerialLogger,
};
use vstd::prelude::*;
use vstd::string::StringSliceAdditionalSpecFns;

verus! {

/// The warning emitted for each skipped dynamic-linking segment.
pub open spec fn spec_dynamic_warning() -> Seq<u8> {
    ("[WARNING] ").spec_bytes() + ("Skipping dynamic segment").spec_bytes() + (
    "\r\n").spec_bytes()
}

/// The narration for one loadable segment as it is mapped: its raw
/// header numbers, the allocation it calls for, and its completion.
pub open spec fn spec_loading_segment_line(h: ProgramHeader) -> Seq<u8> {
    ("[INFO] ").spec_bytes() + ("Loading segment: file_offset=0x").spec_bytes()
        + spec_hex_lower_bytes(h.offset) + (", file_size=0x").spec_bytes()
        + spec_hex_lower_bytes(h.file_size) + (", mem_size=0x").spec_bytes()
        + spec_hex_lower_bytes(h.mem_size) + (", virt_addr=0x").spec_bytes()
        + spec_hex_lower_bytes(h.vaddr) + ("\r\n").spec_bytes()
}

/// The allocation announcement for one loadable segment: page count,
/// aligned address and memory typing from its placement.
pub open spec fn spec_allocating_line(h: ProgramHeader) -> Seq<u8> {
    ("[INFO] ").spec_bytes() + ("Allocating ").spec_bytes() + spec_dec_bytes(
        spec_placement(h).pages,
    ) + (" pages at 0x").spec_bytes() + spec_hex_lower_bytes(spec_placement(h).aligned_vaddr) + (
    " (mem_type: ").spec_bytes() + (match spec_placement(h).kind {
        MemoryKind::Code => ("Code").spec_bytes(),
        MemoryKind::Data => ("Data").spec_bytes(),
    }) + (")").spec_bytes() + ("\r\n").spec_bytes()
}

/// The completion line for one mapped segment.
pub open spec fn spec_segment_loaded_line(h: ProgramHeader) -> Seq<u8> {
    ("[INFO] ").spec_bytes() + ("Segment loaded at 0x").spec_bytes() + spec_hex_lower_bytes(
        h.vaddr,
    ) + ("\r\n").spec_bytes()
}

/// What the loader says about one program header: the warning for a
/// dynamic-linking segment, the three mapping lines for a loadable one,
/// silence for anything else.
pub open spec fn spec_header_narration(h: ProgramHeader) -> Seq<u8> {
    (if is_dynamic(h) {
        spec_dynamic_warning()
    } else {
        Seq::<u8>::empty()
    }) + (if is_load(h) {
        spec_loading_segment_line(h) + spec_allocating_line(h) + spec_segment_loaded_line(h)
    } else {
        Seq::<u8>::empty()
    })
}

/// The loader's narration over a whole header table, in table order.
pub open spec fn spec_narration(hs: Seq<ProgramHeader>) -> Seq<u8>
    decreases hs.len(),
{
    if hs.len() == 0 {
        Seq::empty()
    } else {
        spec_narration(hs.drop_last()) + spec_header_narration(hs.last())
    }
}

/// The line naming the image file being loaded.
pub open spec fn spec_loading_line(path: Seq<u8>) -> Seq<u8> {
    ("[INFO] ").spec_bytes() + ("Loading kernel from ELF file: ").spec_bytes() + path + (
    "\r\n").spec_bytes()
}

/// The line reporting the image's entry address.
pub open spec fn spec_entry_line(entry: u64) -> Seq<u8> {
    ("[INFO] ").spec_bytes() + ("Kernel entry point: 0x").spec_bytes() + spec_hex_lower_bytes(
        entry,
    ) + ("\r\n").spec_bytes()
}

/// The line announced before control transfers.
pub open spec fn spec_jump_line(entry: u64) -> Seq<u8> {
    ("[INFO] ").spec_bytes() + ("Jumping to kernel entry point at 0x").spec_bytes()
        + spec_hex_lower_bytes(entry) + ("\r\n").spec_bytes()
}

/// Loads a kernel image from its raw file bytes.
///
/// Accepts exactly the buffers the segment planner accepts, and then
/// decides the same mappings: one per loadable header, in order, with its
/// placement and its file-then-zeros bytes, and the entry address
/// verbatim. Every header is narrated in table order — a warning per
/// dynamic-linking segment, the mapping lines per loadable one — and the
/// entry address is reported last; a rejected buffer is reported to the
/// caller, never mapped in part.
#[verifier::rlimit(100)]
#[verifier::spinoff_prover]
pub fn load_kernel(file_path: &str, bytes: &Vec<u8>, log: &mut SerialLogger) -> (r: Result<
    LoadPlan,
    ElfError,
>)
    ensures
        r is Ok <==> image_loadable(bytes@),
        r matches Err(e) ==> e == spec_load_error(bytes@),
        r matches Ok(plan) ==> {
            let hs = spec_headers(bytes@);
            let ls = loads_of(hs);
            &&& plan.entry == spec_entry(bytes@)
            &&& plan.segments.len() == ls.len()
            &&& forall|j: int|
                0 <= j < ls.len() ==> {
                    &&& (#[trigger] plan.segments[j]).vaddr == ls[j].vaddr
                    &&& plan.segments[j].file_size == ls[j].file_size
                    &&& plan.segments[j].placement == spec_placement(ls[j])
                    &&& plan.segments[j].contents@ == spec_segment_bytes(bytes@, ls[j])
                }
            &&& plan.dynamic_headers@.map_values(|u: usize| u as int) == dynamics_of(hs)
        },
        r is Ok ==> logger_appended(
            *old(log),
            *final(log),
            spec_loading_line(file_path.spec_bytes()) + spec_narration(spec_headers(bytes@))
                + spec_entry_line(spec_entry(bytes@)),
        ),
        r is Err ==> logger_appended(
            *old(log),
            *final(log),
            spec_loading_line(file_path.spec_bytes()),
        ),
{
    let mut line: Vec<u8> = Vec::new();
    append_str(&mut line, "Loading kernel from ELF file: ");
    append_str(&mut line, file_path);
    log.info_bytes(&line);
    proof {
        if old(log).enabled {
            assert(log.out@ =~= old(log).out@ + spec_loading_line(file_path.spec_bytes()));
        } else {
            assert(log.out@ =~= old(log).out@ + Seq::<u8>::empty());
        }
    }
    let plan = match plan_image(bytes) {
        Ok(plan) => plan,
        Err(e) => {
            return Err(e);
        },
    };
    let img = match parse_image(bytes) {
        Ok(img) => img,
        Err(e) => {
            return Err(e);
        },
    };
    let n = img.headers.len();
    let mut i: usize = 0;
    while i < n
        invariant
            i <= n,
            n == img.headers.len(),
            n == spec_headers(bytes@).len(),
            forall|j: int| 0 <= j < n ==> img.headers[j] == spec_headers(bytes@)[j],
            log.enabled == old(log).enabled,
            log.out@ == old(log).out@ + if old(log).enabled {
                spec_loading_line(file_path.spec_bytes()) + spec_narration(
                    spec_headers(bytes@).take(i as int),
                )
            } else {
                Seq::<u8>::empty()
            },
        decreases n - i,
    {
        let ghost pre = log.out@;
        let h = img.headers[i];
        if h.p_type == crate::image::SEGMENT_TYPE_DYNAMIC {
            log.warn("Skipping dynamic segment");
        }
        if h.p_type == crate::image::SEGMENT_TYPE_LOAD {
            let mut line: Vec<u8> = Vec::new();
            append_str(&mut line, "Loading segment: file_offset=0x");
            let d0 = hex_lower_bytes(h.offset);
            append_bytes(&mut line, &d0);
            append_str(&mut line, ", file_size=0x");
            let d1 = hex_lower_bytes(h.file_size);
            append_bytes(&mut line, &d1);
            append_str(&mut line, ", mem_size=0x");
            let d2 = hex_lower_bytes(h.mem_size);
            append_bytes(&mut line, &d2);
            append_str(&mut line, ", virt_addr=0x");
            let d3 = hex_lower_bytes(h.vaddr);
            append_bytes(&mut line, &d3);
            log.info_bytes(&line);
            let placement = placement_for(&h);
            let mut alloc_line: Vec<u8> = Vec::new();
            append_str(&mut alloc_line, "Allocating ");
            let pages = dec_bytes(placement.pages);
            append_bytes(&mut alloc_line, &pages);
            append_str(&mut alloc_line, " pages at 0x");
            let addr = hex_lower_bytes(placement.aligned_vaddr);
            append_bytes(&mut alloc_line, &addr);
            append_str(&mut alloc_line, " (mem_type: ");
            match placement.kind {
                MemoryKind::Code => append_str(&mut alloc_line, "Code"),
                MemoryKind::Data => append_str(&mut alloc_line, "Data"),
            }
            append_str(&mut alloc_line, ")");
            log.info_bytes(&alloc_line);
            let mut done_line: Vec<u8> = Vec::new();
            append_str(&mut done_line, "Segment loaded at 0x");
            let d4 = hex_lower_bytes(h.vaddr);
            append_bytes(&mut done_line, &d4);
            log.info_bytes(&done_line);
        }
        proof {
            let hs = spec_headers(bytes@);
            assert(hs.take(i + 1).drop_last() =~= hs.take(i as int));
            assert(hs.take(i + 1).last() == hs[i as int]);
            if old(log).enabled {
                assert(log.out@ =~= pre + spec_header_narration(hs[i as int]));
                assert(log.out@ =~= old(log).out@ + (spec_loading_line(file_path.spec_bytes())
                    + spec_narration(hs.take(i + 1))));
            } else {
                assert(log.out@ =~= old(log).out@ + Seq::<u8>::empty());
            }
        }
        i += 1;
    }
    let mut entry_line: Vec<u8> = Vec::new();
    append_str(&mut entry_line, "Kernel entry point: 0x");
    let digits = hex_lower_bytes(plan.entry);
    append_bytes(&mut entry_line, &digits);
    log.info_bytes(&entry_line);
    proof {
        assert(spec_headers(bytes@).take(n as int) =~= spec_headers(bytes@));
        if old(log).enabled {
            assert(log.out@ =~= old(log).out@ + (spec_loading_line(file_path.spec_bytes())
                + spec_narration(spec_headers(bytes@)) + spec_entry_line(plan.entry)));
        } else {
            assert(log.out@ =~= old(log).out@ + Seq::<u8>::empty());
        }
    }
    Ok(plan)
}

/// Announces the address control is about to transfer to.
pub fn announce_entry_point(entry: u64, log: &mut SerialLogger)
    ensures
        logger_appended(*old(log), *final(log), spec_jump_line(entry)),
{
    let mut line: Vec<u8> = Vec::new();
    append_str(&mut line, "Jumping to kernel entry point at 0x");
    let digits = hex_lower_bytes(entry);
    append_bytes(&mut line, &digits);
    log.info_bytes(&line);
    proof {
        if old(log).enabled {
            assert(log.out@ =~= old(log).out@ + spec_jump_line(entry));
        } else {
            assert(log.out@ =~= old(log).out@ + Seq::<u8>::empty());
        }
    }
}

/// What the one-way jump is given: the entry address and the framebuffer
/// description whose address goes into the first-argument register.
pub struct KernelHandoff {
    /// The address control transfers to.
    pub entry: u64,
    /// The description passed to the kernel as its only argument.
    pub framebuffer: FramebufferInfo,
}

/// Fixes what the irrevocable jump will be given: the plan's entry
/// address, verbatim and untransformed, and the framebuffer description
/// as acquired from firmware.
pub fn prepare_handoff(plan: &LoadPlan, framebuffer: FramebufferInfo) -> (h: KernelHandoff)
    ensures
        h.entry == plan.entry,
        h.framebuffer == framebuffer,
{
    KernelHandoff { entry: plan.entry, framebuffer }
}

} // verus!
