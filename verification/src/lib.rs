//! Boot-to-kernel handoff pipeline for a bare-metal operating system.
//!
//! The library holds the verified core of a firmware-hosted loader and the
//! early kernel bring-up that follows it: parsing a program-header-based
//! executable image, planning and filling address-directed memory mappings,
//! building the descriptor and interrupt-vector tables, and the diagnostic
//! channel everything reports through.

pub mod boot;
pub mod drawing;
pub mod ext2;
pub mod framebuffer;
pub mod gdt;
pub mod idt;
pub mod image;
pub mod kernel;
pub mod loader;
pub mod logging;
pub mod memops;
pub mod panic_report;
pub mod ps2;
pub mod scancodes;
pub mod syscalls;

use vstd::prelude::*;

verus! {

/// Size in bytes of one physical page, as the firmware allocator hands them out.
pub const PAGE_SIZE: usize = 4096;

/// Rounds an address down to the start of its page.
pub fn align_down_to_page(addr: u64) -> (r: u64)
    ensures
        r == addr - (addr % (PAGE_SIZE as u64)),
        r % (PAGE_SIZE as u64) == 0,
        r <= addr,
{
    let r = addr & !0xFFFu64;
    proof {
        assert(addr & !0xFFFu64 == addr - (addr % 4096u64)) by (bit_vector);
        assert((addr & !0xFFFu64) % 4096u64 == 0) by (bit_vector);
    }
    r
}

} // verus!
