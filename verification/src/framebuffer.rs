//! The framebuffer description and the full-clear operation.
//!
//! The description locates a linear video memory region and is immutable
//! once constructed; firmware's graphics query fills it in and the kernel
//! only reads it. Clearing treats the region as a raw byte buffer and
//! writes exactly its size in zero bytes — stride padding included, which
//! is why the byte count is the region's size and not the visible area.

use vstd::prelude::*;

verus! {

/// Supported pixel layouts.
#[derive(Clone, Copy, Debug, PartialEq, Eq, Structural)]
pub enum FramebufferFormat {
    /// Red-green-blue channel order.
    Rgb,
    /// Blue-green-red channel order.
    Bgr,
    /// Channels located by bit masks.
    Bitmask,
    /// Only block transfers reach the display; no direct pixel access.
    BltOnly,
}

impl FramebufferFormat {
    /// The layout's name, as diagnostics print it.
    pub fn name(&self) -> (r: &'static str)
        ensures
            (*self is Rgb ==> r@ == ("Rgb")@),
            (*self is Bgr ==> r@ == ("Bgr")@),
            (*self is Bitmask ==> r@ == ("Bitmask")@),
            (*self is BltOnly ==> r@ == ("BltOnly")@),
    {
        match self {
            FramebufferFormat::Rgb => "Rgb",
            FramebufferFormat::Bgr => "Bgr",
            FramebufferFormat::Bitmask => "Bitmask",
            FramebufferFormat::BltOnly => "BltOnly",
        }
    }
}

/// Where the framebuffer lives and how its pixels are laid out.
#[derive(Clone, Copy, Debug, PartialEq, Eq, Structural)]
pub struct FramebufferInfo {
    /// Physical base address of video memory.
    pub address: u64,
    /// Total size of the region in bytes.
    pub size: usize,
    /// Visible width in pixels.
    pub width: usize,
    /// Visible height in pixels.
    pub height: usize,
    /// Pixels per row, at least the width when rows are padded.
    pub stride: usize,
    /// Pixel layout of the region.
    pub format: FramebufferFormat,
}

/// Clears the framebuffer's bytes: every byte of the region becomes zero,
/// and exactly `buffer.len()` bytes are written — the whole region, not
/// the visible area.
pub fn clear_framebuffer_bytes(buffer: &mut Vec<u8>)
    ensures
        final(buffer).len() == old(buffer).len(),
        forall|i: int| 0 <= i < final(buffer).len() ==> final(buffer)[i] == 0u8,
{
    let n = buffer.len();
    let mut i: usize = 0;
    while i < n
        invariant
            i <= n,
            n == buffer.len(),
            forall|j: int| 0 <= j < i ==> buffer[j] == 0u8,
        decreases n - i,
    {
        buffer.set(i, 0);
        i += 1;
    }
}

} // verus!
