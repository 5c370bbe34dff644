//! Early kernel bring-up: the fixed heap region, the strict ordering of the
//! privilege and fault infrastructure, and the first services the kernel
//! narrates over the diagnostic channel.

use crate::ext2::{make_zero_buf, BlockDevice, Ext2, Ext2Error};
use crate::framebuffer::FramebufferInfo;
use crate::idt::{idt_fully_configured, IdtController};
use crate::logging::{
    dec_bytes, hex_lower_bytes, spec_dec_bytes, spec_hex_dump, spec_hex_lower_bytes, append_bytes,
    append_str, logger_appended, SerialLogger,
};
use vstd::prelude::*;
use vstd::string::StringSliceAdditionalSpecFns;

verus! {

/// Base address of the kernel's dynamic-memory arena: a fixed constant,
/// not discovered from the firmware memory map.
pub const HEAP_START: u64 = 0x1000_0000;

/// Size in bytes of the kernel's dynamic-memory arena.
pub const HEAP_SIZE: usize = 0x0100_0000;

/// Guest address the raw disk image is mapped at.
pub const DISK_IMAGE_BASE: u64 = 0x100000;

/// Whether a byte sequence is well-formed UTF-8.
pub uninterp spec fn utf8_valid(b: Seq<u8>) -> bool;

/// Relies on core::str::from_utf8: it succeeds exactly on well-formed
/// UTF-8 and returns the same bytes as text.
#[verifier::external_body]
fn bytes_as_str(bytes: &[u8]) -> (r: Option<&str>)
    ensures
        r is Some <==> utf8_valid(bytes@),
        r matches Some(s) ==> s.spec_bytes() == bytes@,
{
    core::str::from_utf8(bytes).ok()
}

/// A block device over a raw disk image held in memory, as the
/// paravirtual disk hands it over: reads copy straight out of the image.
pub struct VirtioBlockDevice {
    /// The raw disk image.
    pub disk: Vec<u8>,
}

impl BlockDevice for VirtioBlockDevice {
    /// Copies `buf.len()` bytes from the image at `lba * 512`. A read past
    /// the end of the image fails instead of handing out anything.
    fn read_block(&self, lba: u64, buf: &mut Vec<u8>) -> (r: Result<(), Ext2Error>)
        ensures
            r is Ok <==> lba * 512 + old(buf).len() <= self.disk.len(),
            r matches Ok(()) ==> final(buf)@ == self.disk@.subrange(
                lba * 512,
                lba * 512 + old(buf).len(),
            ),
            r is Err ==> r == Err::<(), Ext2Error>(Ext2Error::IoError) && final(buf)@ == old(
                buf,
            )@,
    {
        let n = buf.len();
        let disk_len = self.disk.len();
        if lba > (u64::MAX - n as u64) / 512 {
            proof {
                assert(lba * 512 + n > disk_len) by (nonlinear_arith)
                    requires
                        lba > (u64::MAX - n as u64) / 512,
                        disk_len <= usize::MAX <= u64::MAX,
                        n >= 0,
                ;
            }
            return Err(Ext2Error::IoError);
        }
        let off64: u64 = lba * 512;
        if off64 > u64::MAX - n as u64 || off64 + n as u64 > disk_len as u64 {
            return Err(Ext2Error::IoError);
        }
        let off = off64 as usize;
        let mut i: usize = 0;
        while i < n
            invariant
                i <= n,
                n == buf.len(),
                off + n <= self.disk.len(),
                off == lba * 512,
                forall|j: int| 0 <= j < i ==> buf[j] == self.disk[off + j],
            decreases n - i,
        {
            let b = self.disk[off + i];
            buf.set(i, b);
            i += 1;
        }
        proof {
            assert(buf@ =~= self.disk@.subrange(off as int, off + n));
        }
        Ok(())
    }
}

/// Mounts the in-memory disk image as an ext2 filesystem and reads the
/// first block of the demonstration file, narrating each outcome as an
/// info-level line. Nothing read off the disk is trusted beyond what the
/// parsers admit, and the logger's switch is left as it was.
pub fn try_mount_ext2(device: &VirtioBlockDevice, log: &mut SerialLogger)
    ensures
        final(log).enabled == old(log).enabled,
{
    match Ext2::new(device, log) {
        Ok(fs) => {
            log.info("Mounted ext2 filesystem (virtio hack)");
            let mut buf = make_zero_buf(1024);
            match fs.read_file_first_block("myfile.txt", &mut buf) {
                Ok(()) => {
                    let mut line: Vec<u8> = Vec::new();
                    append_str(&mut line, "Read myfile.txt block: ");
                    match bytes_as_str(buf.as_slice()) {
                        Some(text) => {
                            append_str(&mut line, text);
                        },
                        None => {
                            append_str(&mut line, "<not utf8>");
                        },
                    }
                    log.info_bytes(&line);
                },
                Err(e) => {
                    let mut line: Vec<u8> = Vec::new();
                    append_str(&mut line, "Failed to read myfile.txt block: ");
                    append_str(&mut line, e.name());
                    log.info_bytes(&line);
                },
            }
        },
        Err(e) => {
            let mut line: Vec<u8> = Vec::new();
            append_str(&mut line, "Failed to mount ext2: ");
            append_str(&mut line, e.name());
            log.info_bytes(&line);
        },
    }
}

/// Dumps the first 128 bytes of the raw disk image as info-level
/// hexadecimal lines, sixteen bytes each, headed by the image's mapped
/// address.
pub fn log_ext2_image_header(header: &Vec<u8>, log: &mut SerialLogger)
    requires
        header.len() >= 128,
    ensures
        logger_appended(
            *old(log),
            *final(log),
            spec_hex_dump(("ext2 image @0x100000 [").spec_bytes(), header@, 0, 128),
        ),
{
    log.log_hex_dump("ext2 image @0x100000 [", header, 0, 128);
}

/// The info line describing a framebuffer: address in hexadecimal, then
/// size, resolution, stride and pixel layout.
pub open spec fn spec_framebuffer_line(f: FramebufferInfo) -> Seq<u8> {
    ("FramebufferInfo: address=0x").spec_bytes() + spec_hex_lower_bytes(f.address) + (
    ", size=").spec_bytes() + spec_dec_bytes(f.size as u64) + (", ").spec_bytes() + spec_dec_bytes(
        f.width as u64,
    ) + ("x").spec_bytes() + spec_dec_bytes(f.height as u64) + (", stride=").spec_bytes()
        + spec_dec_bytes(f.stride as u64) + (", format=").spec_bytes() + spec_format_name(f)
}

/// The bytes of a pixel layout's name.
pub open spec fn spec_format_name(f: FramebufferInfo) -> Seq<u8> {
    match f.format {
        crate::framebuffer::FramebufferFormat::Rgb => ("Rgb").spec_bytes(),
        crate::framebuffer::FramebufferFormat::Bgr => ("Bgr").spec_bytes(),
        crate::framebuffer::FramebufferFormat::Bitmask => ("Bitmask").spec_bytes(),
        crate::framebuffer::FramebufferFormat::BltOnly => ("BltOnly").spec_bytes(),
    }
}

/// Describes the framebuffer over the diagnostic channel: one info line
/// with every field of the description, or a note that none was handed
/// over.
pub fn log_framebuffer_info(fb: Option<&FramebufferInfo>, log: &mut SerialLogger)
    ensures
        fb matches Some(f) ==> logger_appended(
            *old(log),
            *final(log),
            ("[INFO] ").spec_bytes() + spec_framebuffer_line(*f) + ("\r\n").spec_bytes(),
        ),
        fb is None ==> logger_appended(
            *old(log),
            *final(log),
            ("[INFO] ").spec_bytes() + ("FramebufferInfo pointer is null").spec_bytes() + (
            "\r\n").spec_bytes(),
        ),
{
    match fb {
        Some(f) => {
            let mut line: Vec<u8> = Vec::new();
            append_str(&mut line, "FramebufferInfo: address=0x");
            let addr = hex_lower_bytes(f.address);
            append_bytes(&mut line, &addr);
            append_str(&mut line, ", size=");
            let size = dec_bytes(f.size as u64);
            append_bytes(&mut line, &size);
            append_str(&mut line, ", ");
            let width = dec_bytes(f.width as u64);
            append_bytes(&mut line, &width);
            append_str(&mut line, "x");
            let height = dec_bytes(f.height as u64);
            append_bytes(&mut line, &height);
            append_str(&mut line, ", stride=");
            let stride = dec_bytes(f.stride as u64);
            append_bytes(&mut line, &stride);
            append_str(&mut line, ", format=");
            append_str(&mut line, f.format.name());
            proof {
                assert(line@ =~= spec_framebuffer_line(*f));
            }
            log.info_bytes(&line);
        },
        None => {
            log.info("FramebufferInfo pointer is null");
        },
    }
}

/// Clears the framebuffer when a description was handed over: every one
/// of its `size` bytes becomes zero and the clear is narrated; without a
/// description nothing is written and a warning says so.
pub fn clear_framebuffer(fb: Option<&FramebufferInfo>, buffer: &mut Vec<u8>, log: &mut SerialLogger)
    requires
        fb matches Some(f) ==> old(buffer).len() == f.size,
    ensures
        final(buffer).len() == old(buffer).len(),
        fb is Some ==> (forall|i: int|
            0 <= i < final(buffer).len() ==> final(buffer)[i] == 0u8) && logger_appended(
            *old(log),
            *final(log),
            ("[INFO] ").spec_bytes() + ("Framebuffer buffer filled with black").spec_bytes() + (
            "\r\n").spec_bytes(),
        ),
        fb is None ==> final(buffer)@ == old(buffer)@ && logger_appended(
            *old(log),
            *final(log),
            ("[WARNING] ").spec_bytes() + (
            "FramebufferInfo pointer is null, cannot fill buffer").spec_bytes() + (
            "\r\n").spec_bytes(),
        ),
{
    match fb {
        Some(_) => {
            crate::framebuffer::clear_framebuffer_bytes(buffer);
            log.info("Framebuffer buffer filled with black");
        },
        None => {
            log.warn("FramebufferInfo pointer is null, cannot fill buffer");
        },
    }
}

/// Builds and arms the vector table, narrating both steps. The table
/// itself is built at most once, whatever this is called; the narration
/// happens on every call, as the load would.
pub fn init_interrupts(idt: &mut IdtController, log: &mut SerialLogger)
    ensures
        old(idt).built is None ==> (final(idt).built matches Some(m) && idt_fully_configured(m)),
        old(idt).built matches Some(m0) ==> (final(idt).built matches Some(m1) && m1.entries@
            == m0.entries@),
        logger_appended(
            *old(log),
            *final(log),
            ("[INFO] ").spec_bytes() + ("Loading IDT...").spec_bytes() + ("\r\n").spec_bytes() + (
            "[INFO] ").spec_bytes() + ("IDT loaded").spec_bytes() + ("\r\n").spec_bytes(),
        ),
{
    log.info("Loading IDT...");
    idt.init_idt();
    log.info("IDT loaded");
    proof {
        if old(log).enabled {
            assert(log.out@ =~= old(log).out@ + (("[INFO] ").spec_bytes() + (
            "Loading IDT...").spec_bytes() + ("\r\n").spec_bytes() + ("[INFO] ").spec_bytes() + (
            "IDT loaded").spec_bytes() + ("\r\n").spec_bytes()));
        } else {
            assert(log.out@ =~= old(log).out@ + Seq::<u8>::empty());
        }
    }
}

/// The strictly ordered stages of privilege and fault bring-up. Each
/// stage is a precondition for the next; only an armed machine may enable
/// interrupts.
#[derive(Clone, Copy, Debug, PartialEq, Eq, Structural)]
pub enum BringUpStage {
    /// Nothing established yet.
    Uninitialized,
    /// The descriptor table is built and loaded, segment registers set.
    DescriptorTableBuilt,
    /// The dedicated fault stacks are recorded in the task-state segment.
    FaultStacksReady,
    /// Every vector has its handler.
    VectorTableBuilt,
    /// The vector table is loaded; interrupts may be enabled.
    Armed,
}

/// The bring-up sequence's state: it only ever moves forward, one stage
/// at a time.
pub struct BringUp {
    /// The last stage reached.
    pub stage: BringUpStage,
}

impl BringUp {
    /// Bring-up starts with nothing established.
    pub fn new() -> (b: BringUp)
        ensures
            b.stage == BringUpStage::Uninitialized,
    {
        BringUp { stage: BringUpStage::Uninitialized }
    }

    /// Records that the descriptor table is built, loaded, and the
    /// segment registers reprogrammed. Only the very first step may do
    /// this.
    pub fn descriptor_table_built(&mut self)
        requires
            old(self).stage == BringUpStage::Uninitialized,
        ensures
            final(self).stage == BringUpStage::DescriptorTableBuilt,
    {
        self.stage = BringUpStage::DescriptorTableBuilt;
    }

    /// Records that the fault stacks stand in the task-state segment;
    /// needs the descriptor table first, since the task-state segment is
    /// reached through it.
    pub fn fault_stacks_ready(&mut self)
        requires
            old(self).stage == BringUpStage::DescriptorTableBuilt,
        ensures
            final(self).stage == BringUpStage::FaultStacksReady,
    {
        self.stage = BringUpStage::FaultStacksReady;
    }

    /// Records that every exception vector has a handler; the two
    /// stack-switching vectors need the fault stacks already registered.
    pub fn vector_table_built(&mut self)
        requires
            old(self).stage == BringUpStage::FaultStacksReady,
        ensures
            final(self).stage == BringUpStage::VectorTableBuilt,
    {
        self.stage = BringUpStage::VectorTableBuilt;
    }

    /// Records that the vector table is loaded. Interrupts may be enabled
    /// only from here on.
    pub fn armed(&mut self)
        requires
            old(self).stage == BringUpStage::VectorTableBuilt,
        ensures
            final(self).stage == BringUpStage::Armed,
    {
        self.stage = BringUpStage::Armed;
    }
}


/// After bring-up, the two exception vectors that switch stacks really
/// point into their statically allocated stack regions: the double-fault
/// and non-maskable-interrupt vectors carry the stack-table indices whose
/// task-state slots hold a pointer inside the double-fault and
/// non-maskable-interrupt stack regions.
pub proof fn lemma_fault_vectors_use_dedicated_stacks(
    m: crate::idt::IdtModel,
    tss: crate::gdt::TaskStateModel,
    df_stack: crate::gdt::FaultStackRegion,
    nmi_stack: crate::gdt::FaultStackRegion,
)
    requires
        idt_fully_configured(m),
        df_stack.wf(),
        nmi_stack.wf(),
        tss.wf(df_stack, nmi_stack),
    ensures
        forall|v: int| 0 <= v < crate::idt::EXCEPTION_VECTORS ==> m.entries[v] is Some,
        m.entries[8] matches Some(e) && e.stack_index == crate::gdt::DOUBLE_FAULT_IST_INDEX
            && df_stack.contains_top(tss.ist[e.stack_index as int] as int),
        m.entries[2] matches Some(e) && e.stack_index == crate::gdt::NMI_IST_INDEX
            && nmi_stack.contains_top(tss.ist[e.stack_index as int] as int),
{
    crate::idt::lemma_exception_vectors_covered(m);
}

} // verus!
