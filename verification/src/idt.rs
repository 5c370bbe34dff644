//! The interrupt vector table and the exception and device handlers.
//!
//! All 256 slots are modelled as plain values. Vector-table construction
//! populates every CPU-exception vector — two of them bound to the dedicated
//! fault stacks — and the device vectors the kernel serves. Each handler is
//! a function from what the hardware hands it to the exact diagnostic bytes
//! it emits and the action the processor takes afterwards; the
//! platform-specific trampolines that the table-load instruction points at
//! stay outside the library and call in here.

use crate::gdt::{DOUBLE_FAULT_IST_INDEX, NMI_IST_INDEX};
use crate::logging::{hex_lower_bytes, spec_hex_lower_bytes, DebugSerial};
use crate::scancodes::{scancode_to_ascii, spec_scancode_to_ascii};
use vstd::prelude::*;
use vstd::string::StringSliceAdditionalSpecFns;

verus! {

/// Number of slots in the vector table.
pub const VECTOR_COUNT: usize = 256;

/// Number of vectors the CPU reserves for exceptions.
pub const EXCEPTION_VECTORS: usize = 32;

/// What the processor does once a handler has run.
#[derive(Clone, Copy, Debug, PartialEq, Eq, Structural)]
pub enum FaultAction {
    /// Disable interrupts and halt forever: the fault has no recovery.
    Halt,
    /// Report through the panic path, which also ends in a halt.
    Panic,
    /// Signal end-of-interrupt to the interrupt controller and resume.
    AcknowledgeAndReturn,
    /// Resume without an acknowledgement.
    Return,
}

/// Which handler a vector-table slot points at.
#[derive(Clone, Copy, Debug, PartialEq, Eq, Structural)]
pub enum HandlerKind {
    /// Division by zero, vector 0.
    DivideByZero,
    /// Debug exception, vector 1.
    Debug,
    /// Non-maskable interrupt, vector 2.
    NonMaskableInterrupt,
    /// Breakpoint, vector 3.
    Breakpoint,
    /// Overflow, vector 4.
    Overflow,
    /// Bound-range exceeded, vector 5.
    BoundRangeExceeded,
    /// Invalid opcode, vector 6.
    InvalidOpcode,
    /// Device not available, vector 7.
    DeviceNotAvailable,
    /// Double fault, vector 8.
    DoubleFault,
    /// Invalid task-state segment, vector 10.
    InvalidTss,
    /// Segment not present, vector 11.
    SegmentNotPresent,
    /// Stack-segment fault, vector 12.
    StackSegmentFault,
    /// General protection fault, vector 13.
    GeneralProtectionFault,
    /// Page fault, vector 14.
    PageFault,
    /// Legacy floating-point exception, vector 16.
    X87FloatingPoint,
    /// Alignment check, vector 17.
    AlignmentCheck,
    /// Machine check, vector 18.
    MachineCheck,
    /// SIMD floating-point exception, vector 19.
    SimdFloatingPoint,
    /// Virtualization exception, vector 20.
    Virtualization,
    /// A vector the architecture reserves: configured, but only ever
    /// reached on a hardware or configuration fault.
    Reserved,
    /// Timer tick, the first remapped device vector.
    Timer,
    /// Keyboard byte available.
    Keyboard,
    /// Mouse event.
    Mouse,
    /// Disk controller event.
    Disk,
    /// Network card event.
    Network,
    /// USB controller event.
    Usb,
    /// Any other wired device line.
    OtherHardware,
}

/// One configured vector-table slot: its handler and its
/// interrupt-stack-table index, zero when the interrupted stack is kept.
#[derive(Clone, Copy, Debug, PartialEq, Eq, Structural)]
pub struct IdtEntry {
    /// The handler this vector runs.
    pub handler: HandlerKind,
    /// Dedicated-stack slot, zero for none.
    pub stack_index: u16,
}

/// The vector table as plain values: one optional entry per vector.
pub struct IdtModel {
    /// All 256 slots; an unset slot is a fatal configuration error if its
    /// vector ever fires.
    pub entries: Vec<Option<IdtEntry>>,
}

/// The handler each vector is given by table construction.
pub open spec fn spec_vector_handler(v: int) -> Option<IdtEntry> {
    if v == 0 {
        Some(IdtEntry { handler: HandlerKind::DivideByZero, stack_index: 0 })
    } else if v == 1 {
        Some(IdtEntry { handler: HandlerKind::Debug, stack_index: 0 })
    } else if v == 2 {
        Some(IdtEntry { handler: HandlerKind::NonMaskableInterrupt, stack_index: NMI_IST_INDEX })
    } else if v == 3 {
        Some(IdtEntry { handler: HandlerKind::Breakpoint, stack_index: 0 })
    } else if v == 4 {
        Some(IdtEntry { handler: HandlerKind::Overflow, stack_index: 0 })
    } else if v == 5 {
        Some(IdtEntry { handler: HandlerKind::BoundRangeExceeded, stack_index: 0 })
    } else if v == 6 {
        Some(IdtEntry { handler: HandlerKind::InvalidOpcode, stack_index: 0 })
    } else if v == 7 {
        Some(IdtEntry { handler: HandlerKind::DeviceNotAvailable, stack_index: 0 })
    } else if v == 8 {
        Some(
            IdtEntry { handler: HandlerKind::DoubleFault, stack_index: DOUBLE_FAULT_IST_INDEX },
        )
    } else if v == 10 {
        Some(IdtEntry { handler: HandlerKind::InvalidTss, stack_index: 0 })
    } else if v == 11 {
        Some(IdtEntry { handler: HandlerKind::SegmentNotPresent, stack_index: 0 })
    } else if v == 12 {
        Some(IdtEntry { handler: HandlerKind::StackSegmentFault, stack_index: 0 })
    } else if v == 13 {
        Some(IdtEntry { handler: HandlerKind::GeneralProtectionFault, stack_index: 0 })
    } else if v == 14 {
        Some(IdtEntry { handler: HandlerKind::PageFault, stack_index: 0 })
    } else if v == 16 {
        Some(IdtEntry { handler: HandlerKind::X87FloatingPoint, stack_index: 0 })
    } else if v == 17 {
        Some(IdtEntry { handler: HandlerKind::AlignmentCheck, stack_index: 0 })
    } else if v == 18 {
        Some(IdtEntry { handler: HandlerKind::MachineCheck, stack_index: 0 })
    } else if v == 19 {
        Some(IdtEntry { handler: HandlerKind::SimdFloatingPoint, stack_index: 0 })
    } else if v == 20 {
        Some(IdtEntry { handler: HandlerKind::Virtualization, stack_index: 0 })
    } else if 0 <= v < EXCEPTION_VECTORS {
        Some(IdtEntry { handler: HandlerKind::Reserved, stack_index: 0 })
    } else if v == 32 {
        Some(IdtEntry { handler: HandlerKind::Timer, stack_index: 0 })
    } else if v == 33 {
        Some(IdtEntry { handler: HandlerKind::Keyboard, stack_index: 0 })
    } else if v == 43 {
        Some(IdtEntry { handler: HandlerKind::Network, stack_index: 0 })
    } else if v == 44 {
        Some(IdtEntry { handler: HandlerKind::Mouse, stack_index: 0 })
    } else if v == 46 {
        Some(IdtEntry { handler: HandlerKind::Disk, stack_index: 0 })
    } else if v == 47 {
        Some(IdtEntry { handler: HandlerKind::OtherHardware, stack_index: 0 })
    } else if v == 55 {
        Some(IdtEntry { handler: HandlerKind::Usb, stack_index: 0 })
    } else {
        None
    }
}

/// The fully built table: every vector holds exactly what construction
/// gives it.
pub open spec fn idt_fully_configured(m: IdtModel) -> bool {
    &&& m.entries.len() == VECTOR_COUNT
    &&& forall|v: int| 0 <= v < VECTOR_COUNT ==> m.entries[v] == spec_vector_handler(v)
}

impl IdtModel {
    /// A table with every slot unset.
    pub fn new() -> (m: IdtModel)
        ensures
            m.entries.len() == VECTOR_COUNT,
            forall|v: int| 0 <= v < VECTOR_COUNT ==> m.entries[v] is None,
    {
        let mut entries: Vec<Option<IdtEntry>> = Vec::new();
        let mut i: usize = 0;
        while i < VECTOR_COUNT
            invariant
                i <= VECTOR_COUNT,
                entries.len() == i,
                forall|v: int| 0 <= v < i ==> entries[v] is None,
            decreases VECTOR_COUNT - i,
        {
            entries.push(None);
            i += 1;
        }
        IdtModel { entries }
    }

    /// Reads one slot.
    pub fn vector_entry(&self, v: u8) -> (r: Option<IdtEntry>)
        requires
            self.entries.len() == VECTOR_COUNT,
        ensures
            r == self.entries[v as int],
    {
        self.entries[v as usize]
    }

    fn set_handler(&mut self, v: usize, handler: HandlerKind, stack_index: u16)
        requires
            v < old(self).entries.len(),
        ensures
            final(self).entries.len() == old(self).entries.len(),
            final(self).entries@ == old(self).entries@.update(
                v as int,
                Some(IdtEntry { handler, stack_index }),
            ),
            final(self).entries[v as int] == Some(IdtEntry { handler, stack_index }),
            forall|w: int|
                0 <= w < old(self).entries.len() && w != v ==> final(self).entries[w] == old(
                    self,
                ).entries[w],
    {
        self.entries.set(v, Some(IdtEntry { handler, stack_index }));
    }
}

/// Fills the 32 CPU-exception vectors: each named exception gets its
/// handler, the double-fault and non-maskable-interrupt vectors are bound
/// to their dedicated stacks, and the architecture's reserved vectors get
/// the reserved handler so that no exception vector is left unset.
pub fn setup_cpu_exceptions(idt: &mut IdtModel)
    requires
        old(idt).entries.len() == VECTOR_COUNT,
    ensures
        final(idt).entries.len() == VECTOR_COUNT,
        forall|v: int|
            0 <= v < EXCEPTION_VECTORS ==> final(idt).entries[v] == spec_vector_handler(v),
        forall|v: int|
            EXCEPTION_VECTORS <= v < VECTOR_COUNT ==> final(idt).entries[v] == old(
                idt,
            ).entries[v],
{
    idt.set_handler(8, HandlerKind::DoubleFault, DOUBLE_FAULT_IST_INDEX);
    idt.set_handler(2, HandlerKind::NonMaskableInterrupt, NMI_IST_INDEX);
    idt.set_handler(0, HandlerKind::DivideByZero, 0);
    idt.set_handler(13, HandlerKind::GeneralProtectionFault, 0);
    idt.set_handler(1, HandlerKind::Debug, 0);
    idt.set_handler(3, HandlerKind::Breakpoint, 0);
    idt.set_handler(4, HandlerKind::Overflow, 0);
    idt.set_handler(5, HandlerKind::BoundRangeExceeded, 0);
    idt.set_handler(6, HandlerKind::InvalidOpcode, 0);
    idt.set_handler(7, HandlerKind::DeviceNotAvailable, 0);
    idt.set_handler(10, HandlerKind::InvalidTss, 0);
    idt.set_handler(11, HandlerKind::SegmentNotPresent, 0);
    idt.set_handler(12, HandlerKind::StackSegmentFault, 0);
    idt.set_handler(14, HandlerKind::PageFault, 0);
    idt.set_handler(16, HandlerKind::X87FloatingPoint, 0);
    idt.set_handler(17, HandlerKind::AlignmentCheck, 0);
    idt.set_handler(18, HandlerKind::MachineCheck, 0);
    idt.set_handler(19, HandlerKind::SimdFloatingPoint, 0);
    idt.set_handler(20, HandlerKind::Virtualization, 0);
    idt.set_handler(9, HandlerKind::Reserved, 0);
    idt.set_handler(15, HandlerKind::Reserved, 0);
    let mut v: usize = 21;
    while v < EXCEPTION_VECTORS
        invariant
            21 <= v <= EXCEPTION_VECTORS,
            idt.entries.len() == VECTOR_COUNT,
            forall|w: int| 0 <= w < 21 ==> idt.entries[w] == spec_vector_handler(w),
            forall|w: int| 21 <= w < v ==> idt.entries[w] == spec_vector_handler(w),
            forall|w: int|
                v <= w < VECTOR_COUNT ==> idt.entries[w] == old(idt).entries[w],
        decreases EXCEPTION_VECTORS - v,
    {
        idt.set_handler(v, HandlerKind::Reserved, 0);
        v += 1;
    }
}

/// The seven device vectors the kernel serves.
pub open spec fn is_device_vector(v: int) -> bool {
    v == 32 || v == 33 || v == 43 || v == 44 || v == 46 || v == 47 || v == 55
}

/// Fills the device vectors the kernel serves, starting at the interrupt
/// controller's remap offset: timer, keyboard, and the wired lines for
/// mouse, disk, network, USB and any other device. Every other slot keeps
/// what it held.
pub fn setup_hardware_interrupts(idt: &mut IdtModel)
    requires
        old(idt).entries.len() == VECTOR_COUNT,
    ensures
        final(idt).entries.len() == VECTOR_COUNT,
        forall|v: int|
            0 <= v < VECTOR_COUNT && is_device_vector(v) ==> final(idt).entries[v]
                == spec_vector_handler(v),
        forall|v: int|
            0 <= v < VECTOR_COUNT && !is_device_vector(v) ==> final(idt).entries[v] == old(
                idt,
            ).entries[v],
{
    idt.set_handler(32, HandlerKind::Timer, 0);
    idt.set_handler(33, HandlerKind::Keyboard, 0);
    idt.set_handler(44, HandlerKind::Mouse, 0);
    idt.set_handler(46, HandlerKind::Disk, 0);
    idt.set_handler(43, HandlerKind::Network, 0);
    idt.set_handler(55, HandlerKind::Usb, 0);
    idt.set_handler(47, HandlerKind::OtherHardware, 0);
}

/// The one-time owner of the vector table.
///
/// The table is built and loaded exactly once, before interrupts are
/// enabled; later initialization calls leave the first table untouched.
pub struct IdtController {
    /// The table of the first initialization, if any.
    pub built: Option<IdtModel>,
}

impl IdtController {
    /// A controller that has not built the table yet.
    pub fn new() -> (c: IdtController)
        ensures
            c.built is None,
    {
        IdtController { built: None }
    }

    /// Builds the vector table once.
    ///
    /// The first call populates every exception vector and the served
    /// device vectors; every later call leaves the first table exactly as
    /// it is.
    pub fn init_idt(&mut self)
        ensures
            old(self).built is None ==> (final(self).built matches Some(m)
                && idt_fully_configured(m)),
            old(self).built matches Some(m0) ==> (final(self).built matches Some(m1)
                && m1.entries@ == m0.entries@),
    {
        match &self.built {
            Some(_) => {
            },
            None => {
                let mut idt = IdtModel::new();
                setup_cpu_exceptions(&mut idt);
                setup_hardware_interrupts(&mut idt);
                proof {
                    assert forall|v: int| 0 <= v < VECTOR_COUNT implies idt.entries[v]
                        == spec_vector_handler(v) by {
                        if v >= EXCEPTION_VECTORS && !is_device_vector(v) {
                            assert(spec_vector_handler(v) is None);
                        }
                    }
                }
                self.built = Some(idt);
            },
        }
    }
}

/// After construction, no exception vector is left without a handler, and
/// the double-fault and non-maskable-interrupt vectors are the ones bound
/// to dedicated stacks.
pub proof fn lemma_exception_vectors_covered(m: IdtModel)
    requires
        idt_fully_configured(m),
    ensures
        forall|v: int| 0 <= v < EXCEPTION_VECTORS ==> m.entries[v] is Some,
        m.entries[8] == Some(
            IdtEntry { handler: HandlerKind::DoubleFault, stack_index: DOUBLE_FAULT_IST_INDEX },
        ),
        m.entries[2] == Some(
            IdtEntry { handler: HandlerKind::NonMaskableInterrupt, stack_index: NMI_IST_INDEX },
        ),
{
    assert forall|v: int| 0 <= v < EXCEPTION_VECTORS implies m.entries[v] is Some by {
        assert(m.entries[v] == spec_vector_handler(v));
    }
    assert(m.entries[8] == spec_vector_handler(8));
    assert(m.entries[2] == spec_vector_handler(2));
}


/// The line reporting an exception's raw error code, as the fault
/// trampolines print it.
pub open spec fn spec_error_code_line(code: u64) -> Seq<u8> {
    ("[ERROR] Error Code: 0x").spec_bytes() + spec_hex_lower_bytes(code) + ("\r\n").spec_bytes()
}

/// Writes one head-plus-context line: the fixed head, the caller-formatted
/// fault context, and the line ending.
fn write_context_line(out: &mut DebugSerial, head: &str, context: &str)
    ensures
        final(out).out@ == old(out).out@ + head.spec_bytes() + context.spec_bytes() + (
        "\r\n").spec_bytes(),
{
    out.write_str(head);
    out.write_str(context);
    out.write_str("\r\n");
    proof {
        assert(out.out@ =~= old(out).out@ + head.spec_bytes() + context.spec_bytes() + (
        "\r\n").spec_bytes());
    }
}

/// Writes the error-code line for faults that push one.
fn write_error_code_line(out: &mut DebugSerial, code: u64)
    ensures
        final(out).out@ == old(out).out@ + spec_error_code_line(code),
{
    out.write_str("[ERROR] Error Code: 0x");
    let digits = hex_lower_bytes(code);
    out.write_bytes(&digits);
    out.write_str("\r\n");
    proof {
        assert(out.out@ =~= old(out).out@ + spec_error_code_line(code));
    }
}

/// Division by zero: reports the fault and halts; there is nothing to
/// recover.
pub fn divide_by_zero_handler(out: &mut DebugSerial) -> (r: FaultAction)
    ensures
        final(out).out@ == old(out).out@ + ("[ERROR] EXCEPTION: DIVIDE BY ZERO\r\n").spec_bytes()
            + (
        "[SUGGESTION] Possible cause: Division by zero. Solution: Check divisor before division.\r\n").spec_bytes(),
        r == FaultAction::Halt,
{
    out.write_str("[ERROR] EXCEPTION: DIVIDE BY ZERO\r\n");
    out.write_str(
        "[SUGGESTION] Possible cause: Division by zero. Solution: Check divisor before division.\r\n",
    );
    proof {
        assert(out.out@ =~= old(out).out@ + ("[ERROR] EXCEPTION: DIVIDE BY ZERO\r\n").spec_bytes()
            + (
        "[SUGGESTION] Possible cause: Division by zero. Solution: Check divisor before division.\r\n").spec_bytes());
    }
    FaultAction::Halt
}

/// General protection fault: reports the fault context and error code,
/// then goes through the panic path.
pub fn general_protection_fault_handler(
    out: &mut DebugSerial,
    frame_text: &str,
    error_code: u64,
) -> (r: FaultAction)
    ensures
        final(out).out@ == old(out).out@ + ("[ERROR] General Protection Fault: ").spec_bytes()
            + frame_text.spec_bytes() + ("\r\n").spec_bytes() + spec_error_code_line(error_code)
            + (
        "[SUGGESTION] Possible cause: Invalid memory access or segment. Solution: Check segment selectors and memory accesses.\r\n").spec_bytes(),
        r == FaultAction::Panic,
{
    write_context_line(out, "[ERROR] General Protection Fault: ", frame_text);
    write_error_code_line(out, error_code);
    out.write_str(
        "[SUGGESTION] Possible cause: Invalid memory access or segment. Solution: Check segment selectors and memory accesses.\r\n",
    );
    proof {
        assert(out.out@ =~= old(out).out@ + ("[ERROR] General Protection Fault: ").spec_bytes()
            + frame_text.spec_bytes() + ("\r\n").spec_bytes() + spec_error_code_line(error_code)
            + (
        "[SUGGESTION] Possible cause: Invalid memory access or segment. Solution: Check segment selectors and memory accesses.\r\n").spec_bytes());
    }
    FaultAction::Panic
}

/// Double fault: the hardware state is not guaranteed recoverable, so the
/// handler reports and never returns.
pub fn double_fault_handler(out: &mut DebugSerial) -> (r: FaultAction)
    ensures
        final(out).out@ == old(out).out@ + (
        "[SUGGESTION] Possible cause: Exception during exception handling. Solution: Check stack overflows and handler correctness.\r\n").spec_bytes(),
        r == FaultAction::Panic,
{
    out.write_str(
        "[SUGGESTION] Possible cause: Exception during exception handling. Solution: Check stack overflows and handler correctness.\r\n",
    );
    FaultAction::Panic
}

/// Debug exception: reports the fault context and halts.
pub fn debug_handler(out: &mut DebugSerial, frame_text: &str) -> (r: FaultAction)
    ensures
        final(out).out@ == old(out).out@ + ("[DEBUG] Debug Exception: ").spec_bytes() + frame_text.spec_bytes() + (
        "\r\n").spec_bytes() + ("[SUGGESTION] Possible cause: Debug exception (breakpoint, single-step). Solution: Check debug registers and breakpoints.\r\n").spec_bytes(),
        r == FaultAction::Halt,
{
    write_context_line(out, "[DEBUG] Debug Exception: ", frame_text);
    out.write_str("[SUGGESTION] Possible cause: Debug exception (breakpoint, single-step). Solution: Check debug registers and breakpoints.\r\n");
    proof {
        assert(out.out@ =~= old(out).out@ + ("[DEBUG] Debug Exception: ").spec_bytes() + frame_text.spec_bytes() + (
        "\r\n").spec_bytes() + ("[SUGGESTION] Possible cause: Debug exception (breakpoint, single-step). Solution: Check debug registers and breakpoints.\r\n").spec_bytes());
    }
    FaultAction::Halt
}

/// Non-maskable interrupt: reports on its dedicated stack and halts.
pub fn non_maskable_interrupt_handler(out: &mut DebugSerial, frame_text: &str) -> (r: FaultAction)
    ensures
        final(out).out@ == old(out).out@ + ("[NMI] Non-Maskable Interrupt: ").spec_bytes() + frame_text.spec_bytes() + (
        "\r\n").spec_bytes() + ("[SUGGESTION] Possible cause: Hardware failure or NMI source. Solution: Check hardware and NMI sources.\r\n").spec_bytes(),
        r == FaultAction::Halt,
{
    write_context_line(out, "[NMI] Non-Maskable Interrupt: ", frame_text);
    out.write_str("[SUGGESTION] Possible cause: Hardware failure or NMI source. Solution: Check hardware and NMI sources.\r\n");
    proof {
        assert(out.out@ =~= old(out).out@ + ("[NMI] Non-Maskable Interrupt: ").spec_bytes() + frame_text.spec_bytes() + (
        "\r\n").spec_bytes() + ("[SUGGESTION] Possible cause: Hardware failure or NMI source. Solution: Check hardware and NMI sources.\r\n").spec_bytes());
    }
    FaultAction::Halt
}

/// Breakpoint: reports the fault context and halts.
pub fn breakpoint_handler(out: &mut DebugSerial, frame_text: &str) -> (r: FaultAction)
    ensures
        final(out).out@ == old(out).out@ + ("[DEBUG] Breakpoint Exception: ").spec_bytes() + frame_text.spec_bytes() + (
        "\r\n").spec_bytes() + ("[SUGGESTION] Possible cause: Breakpoint instruction (int3). Solution: Check for intentional breakpoints.\r\n").spec_bytes(),
        r == FaultAction::Halt,
{
    write_context_line(out, "[DEBUG] Breakpoint Exception: ", frame_text);
    out.write_str("[SUGGESTION] Possible cause: Breakpoint instruction (int3). Solution: Check for intentional breakpoints.\r\n");
    proof {
        assert(out.out@ =~= old(out).out@ + ("[DEBUG] Breakpoint Exception: ").spec_bytes() + frame_text.spec_bytes() + (
        "\r\n").spec_bytes() + ("[SUGGESTION] Possible cause: Breakpoint instruction (int3). Solution: Check for intentional breakpoints.\r\n").spec_bytes());
    }
    FaultAction::Halt
}

/// Overflow: reports the fault context and halts.
pub fn overflow_handler(out: &mut DebugSerial, frame_text: &str) -> (r: FaultAction)
    ensures
        final(out).out@ == old(out).out@ + ("[ERROR] Stack Overflow: ").spec_bytes() + frame_text.spec_bytes() + (
        "\r\n").spec_bytes() + ("[SUGGESTION] Possible cause: INTO instruction overflow. Solution: Check arithmetic operations for overflow.\r\n").spec_bytes(),
        r == FaultAction::Halt,
{
    write_context_line(out, "[ERROR] Stack Overflow: ", frame_text);
    out.write_str("[SUGGESTION] Possible cause: INTO instruction overflow. Solution: Check arithmetic operations for overflow.\r\n");
    proof {
        assert(out.out@ =~= old(out).out@ + ("[ERROR] Stack Overflow: ").spec_bytes() + frame_text.spec_bytes() + (
        "\r\n").spec_bytes() + ("[SUGGESTION] Possible cause: INTO instruction overflow. Solution: Check arithmetic operations for overflow.\r\n").spec_bytes());
    }
    FaultAction::Halt
}

/// Bound-range exceeded: reports the fault context and halts.
pub fn bound_range_exceeded_handler(out: &mut DebugSerial, frame_text: &str) -> (r: FaultAction)
    ensures
        final(out).out@ == old(out).out@ + ("[ERROR] Bound Range Exceeded: ").spec_bytes() + frame_text.spec_bytes() + (
        "\r\n").spec_bytes() + ("[SUGGESTION] Possible cause: BOUND instruction out of range. Solution: Check array bounds.\r\n").spec_bytes(),
        r == FaultAction::Halt,
{
    write_context_line(out, "[ERROR] Bound Range Exceeded: ", frame_text);
    out.write_str("[SUGGESTION] Possible cause: BOUND instruction out of range. Solution: Check array bounds.\r\n");
    proof {
        assert(out.out@ =~= old(out).out@ + ("[ERROR] Bound Range Exceeded: ").spec_bytes() + frame_text.spec_bytes() + (
        "\r\n").spec_bytes() + ("[SUGGESTION] Possible cause: BOUND instruction out of range. Solution: Check array bounds.\r\n").spec_bytes());
    }
    FaultAction::Halt
}

/// Invalid opcode: reports the fault context and halts.
pub fn invalid_opcode_handler(out: &mut DebugSerial, frame_text: &str) -> (r: FaultAction)
    ensures
        final(out).out@ == old(out).out@ + ("[ERROR] Invalid Opcode: ").spec_bytes() + frame_text.spec_bytes() + (
        "\r\n").spec_bytes() + ("[SUGGESTION] Possible cause: Invalid or undefined instruction. Solution: Check for unsupported CPU instructions.\r\n").spec_bytes(),
        r == FaultAction::Halt,
{
    write_context_line(out, "[ERROR] Invalid Opcode: ", frame_text);
    out.write_str("[SUGGESTION] Possible cause: Invalid or undefined instruction. Solution: Check for unsupported CPU instructions.\r\n");
    proof {
        assert(out.out@ =~= old(out).out@ + ("[ERROR] Invalid Opcode: ").spec_bytes() + frame_text.spec_bytes() + (
        "\r\n").spec_bytes() + ("[SUGGESTION] Possible cause: Invalid or undefined instruction. Solution: Check for unsupported CPU instructions.\r\n").spec_bytes());
    }
    FaultAction::Halt
}

/// Device not available: reports the fault context and halts.
pub fn device_not_available_handler(out: &mut DebugSerial, frame_text: &str) -> (r: FaultAction)
    ensures
        final(out).out@ == old(out).out@ + ("[ERROR] Device Not Available: ").spec_bytes() + frame_text.spec_bytes() + (
        "\r\n").spec_bytes() + ("[SUGGESTION] Possible cause: FPU or device not available. Solution: Check FPU usage and TS flag.\r\n").spec_bytes(),
        r == FaultAction::Halt,
{
    write_context_line(out, "[ERROR] Device Not Available: ", frame_text);
    out.write_str("[SUGGESTION] Possible cause: FPU or device not available. Solution: Check FPU usage and TS flag.\r\n");
    proof {
        assert(out.out@ =~= old(out).out@ + ("[ERROR] Device Not Available: ").spec_bytes() + frame_text.spec_bytes() + (
        "\r\n").spec_bytes() + ("[SUGGESTION] Possible cause: FPU or device not available. Solution: Check FPU usage and TS flag.\r\n").spec_bytes());
    }
    FaultAction::Halt
}

/// Legacy floating-point exception: reports the fault context and halts.
pub fn x87_floating_point_handler(out: &mut DebugSerial, frame_text: &str) -> (r: FaultAction)
    ensures
        final(out).out@ == old(out).out@ + ("[ERROR] x87 Floating Point Exception: ").spec_bytes() + frame_text.spec_bytes() + (
        "\r\n").spec_bytes() + ("[SUGGESTION] Possible cause: x87 FPU error. Solution: Check floating point operations.\r\n").spec_bytes(),
        r == FaultAction::Halt,
{
    write_context_line(out, "[ERROR] x87 Floating Point Exception: ", frame_text);
    out.write_str("[SUGGESTION] Possible cause: x87 FPU error. Solution: Check floating point operations.\r\n");
    proof {
        assert(out.out@ =~= old(out).out@ + ("[ERROR] x87 Floating Point Exception: ").spec_bytes() + frame_text.spec_bytes() + (
        "\r\n").spec_bytes() + ("[SUGGESTION] Possible cause: x87 FPU error. Solution: Check floating point operations.\r\n").spec_bytes());
    }
    FaultAction::Halt
}

/// Machine check: the hardware is not trustworthy; reports and never returns.
pub fn machine_check_handler(out: &mut DebugSerial, frame_text: &str) -> (r: FaultAction)
    ensures
        final(out).out@ == old(out).out@ + ("[ERROR] Machine Check Exception: ").spec_bytes() + frame_text.spec_bytes() + (
        "\r\n").spec_bytes() + ("[SUGGESTION] Possible cause: Hardware error. Solution: Check hardware status and logs.\r\n").spec_bytes(),
        r == FaultAction::Halt,
{
    write_context_line(out, "[ERROR] Machine Check Exception: ", frame_text);
    out.write_str("[SUGGESTION] Possible cause: Hardware error. Solution: Check hardware status and logs.\r\n");
    proof {
        assert(out.out@ =~= old(out).out@ + ("[ERROR] Machine Check Exception: ").spec_bytes() + frame_text.spec_bytes() + (
        "\r\n").spec_bytes() + ("[SUGGESTION] Possible cause: Hardware error. Solution: Check hardware status and logs.\r\n").spec_bytes());
    }
    FaultAction::Halt
}

/// SIMD floating-point exception: reports the fault context and halts.
pub fn simd_floating_point_handler(out: &mut DebugSerial, frame_text: &str) -> (r: FaultAction)
    ensures
        final(out).out@ == old(out).out@ + ("[ERROR] SIMD Floating Point Exception: ").spec_bytes() + frame_text.spec_bytes() + (
        "\r\n").spec_bytes() + ("[SUGGESTION] Possible cause: SIMD FPU error. Solution: Check SIMD operations.\r\n").spec_bytes(),
        r == FaultAction::Halt,
{
    write_context_line(out, "[ERROR] SIMD Floating Point Exception: ", frame_text);
    out.write_str("[SUGGESTION] Possible cause: SIMD FPU error. Solution: Check SIMD operations.\r\n");
    proof {
        assert(out.out@ =~= old(out).out@ + ("[ERROR] SIMD Floating Point Exception: ").spec_bytes() + frame_text.spec_bytes() + (
        "\r\n").spec_bytes() + ("[SUGGESTION] Possible cause: SIMD FPU error. Solution: Check SIMD operations.\r\n").spec_bytes());
    }
    FaultAction::Halt
}

/// Virtualization exception: reports the fault context and halts.
pub fn virtualization_exception_handler(out: &mut DebugSerial, frame_text: &str) -> (r: FaultAction)
    ensures
        final(out).out@ == old(out).out@ + ("[ERROR] Virtualization Exception: ").spec_bytes() + frame_text.spec_bytes() + (
        "\r\n").spec_bytes() + ("[SUGGESTION] Possible cause: Virtualization instruction error. Solution: Check virtualization support and usage.\r\n").spec_bytes(),
        r == FaultAction::Halt,
{
    write_context_line(out, "[ERROR] Virtualization Exception: ", frame_text);
    out.write_str("[SUGGESTION] Possible cause: Virtualization instruction error. Solution: Check virtualization support and usage.\r\n");
    proof {
        assert(out.out@ =~= old(out).out@ + ("[ERROR] Virtualization Exception: ").spec_bytes() + frame_text.spec_bytes() + (
        "\r\n").spec_bytes() + ("[SUGGESTION] Possible cause: Virtualization instruction error. Solution: Check virtualization support and usage.\r\n").spec_bytes());
    }
    FaultAction::Halt
}

/// Invalid task-state segment: reports context and error code, then halts.
pub fn invalid_tss_handler(out: &mut DebugSerial, frame_text: &str, error_code: u64) -> (r: FaultAction)
    ensures
        final(out).out@ == old(out).out@ + ("[ERROR] Invalid TSS: ").spec_bytes() + frame_text.spec_bytes() + (
        "\r\n").spec_bytes() + spec_error_code_line(error_code) + ("[SUGGESTION] Possible cause: Invalid Task State Segment. Solution: Check TSS setup and task switching.\r\n").spec_bytes(),
        r == FaultAction::Halt,
{
    write_context_line(out, "[ERROR] Invalid TSS: ", frame_text);
    write_error_code_line(out, error_code);
    out.write_str("[SUGGESTION] Possible cause: Invalid Task State Segment. Solution: Check TSS setup and task switching.\r\n");
    proof {
        assert(out.out@ =~= old(out).out@ + ("[ERROR] Invalid TSS: ").spec_bytes() + frame_text.spec_bytes() + (
        "\r\n").spec_bytes() + spec_error_code_line(error_code) + ("[SUGGESTION] Possible cause: Invalid Task State Segment. Solution: Check TSS setup and task switching.\r\n").spec_bytes());
    }
    FaultAction::Halt
}

/// Segment not present: reports context and error code, then halts.
pub fn segment_not_present_handler(out: &mut DebugSerial, frame_text: &str, error_code: u64) -> (r: FaultAction)
    ensures
        final(out).out@ == old(out).out@ + ("[ERROR] Segment Not Present: ").spec_bytes() + frame_text.spec_bytes() + (
        "\r\n").spec_bytes() + spec_error_code_line(error_code) + ("[SUGGESTION] Possible cause: Segment not present in memory. Solution: Check segment descriptors.\r\n").spec_bytes(),
        r == FaultAction::Halt,
{
    write_context_line(out, "[ERROR] Segment Not Present: ", frame_text);
    write_error_code_line(out, error_code);
    out.write_str("[SUGGESTION] Possible cause: Segment not present in memory. Solution: Check segment descriptors.\r\n");
    proof {
        assert(out.out@ =~= old(out).out@ + ("[ERROR] Segment Not Present: ").spec_bytes() + frame_text.spec_bytes() + (
        "\r\n").spec_bytes() + spec_error_code_line(error_code) + ("[SUGGESTION] Possible cause: Segment not present in memory. Solution: Check segment descriptors.\r\n").spec_bytes());
    }
    FaultAction::Halt
}

/// Stack-segment fault: reports context and error code, then halts.
pub fn stack_segment_fault_handler(out: &mut DebugSerial, frame_text: &str, error_code: u64) -> (r: FaultAction)
    ensures
        final(out).out@ == old(out).out@ + ("[ERROR] Stack Segment Fault: ").spec_bytes() + frame_text.spec_bytes() + (
        "\r\n").spec_bytes() + spec_error_code_line(error_code) + ("[SUGGESTION] Possible cause: Stack segment error. Solution: Check stack pointers and segment limits.\r\n").spec_bytes(),
        r == FaultAction::Halt,
{
    write_context_line(out, "[ERROR] Stack Segment Fault: ", frame_text);
    write_error_code_line(out, error_code);
    out.write_str("[SUGGESTION] Possible cause: Stack segment error. Solution: Check stack pointers and segment limits.\r\n");
    proof {
        assert(out.out@ =~= old(out).out@ + ("[ERROR] Stack Segment Fault: ").spec_bytes() + frame_text.spec_bytes() + (
        "\r\n").spec_bytes() + spec_error_code_line(error_code) + ("[SUGGESTION] Possible cause: Stack segment error. Solution: Check stack pointers and segment limits.\r\n").spec_bytes());
    }
    FaultAction::Halt
}

/// Alignment check: reports context and error code, then halts.
pub fn alignment_check_handler(out: &mut DebugSerial, frame_text: &str, error_code: u64) -> (r: FaultAction)
    ensures
        final(out).out@ == old(out).out@ + ("[ERROR] Alignment Check Exception: ").spec_bytes() + frame_text.spec_bytes() + (
        "\r\n").spec_bytes() + spec_error_code_line(error_code) + ("[SUGGESTION] Possible cause: Unaligned memory access. Solution: Check data alignment.\r\n").spec_bytes(),
        r == FaultAction::Halt,
{
    write_context_line(out, "[ERROR] Alignment Check Exception: ", frame_text);
    write_error_code_line(out, error_code);
    out.write_str("[SUGGESTION] Possible cause: Unaligned memory access. Solution: Check data alignment.\r\n");
    proof {
        assert(out.out@ =~= old(out).out@ + ("[ERROR] Alignment Check Exception: ").spec_bytes() + frame_text.spec_bytes() + (
        "\r\n").spec_bytes() + spec_error_code_line(error_code) + ("[SUGGESTION] Possible cause: Unaligned memory access. Solution: Check data alignment.\r\n").spec_bytes());
    }
    FaultAction::Halt
}

/// Page fault: reports the fault context and the decoded error-code text
/// the trampoline formatted, then halts.
pub fn page_fault_handler(out: &mut DebugSerial, frame_text: &str, error_code_text: &str) -> (r:
    FaultAction)
    ensures
        final(out).out@ == old(out).out@ + ("[ERROR] Page Fault: ").spec_bytes()
            + frame_text.spec_bytes() + ("\r\n").spec_bytes() + (
        "[ERROR] Error Code: ").spec_bytes() + error_code_text.spec_bytes() + (
        "\r\n").spec_bytes() + (
        "[SUGGESTION] Possible cause: Invalid memory access. Solution: Check page tables and memory accesses.\r\n").spec_bytes(),
        r == FaultAction::Halt,
{
    write_context_line(out, "[ERROR] Page Fault: ", frame_text);
    write_context_line(out, "[ERROR] Error Code: ", error_code_text);
    out.write_str(
        "[SUGGESTION] Possible cause: Invalid memory access. Solution: Check page tables and memory accesses.\r\n",
    );
    proof {
        assert(out.out@ =~= old(out).out@ + ("[ERROR] Page Fault: ").spec_bytes()
            + frame_text.spec_bytes() + ("\r\n").spec_bytes() + (
        "[ERROR] Error Code: ").spec_bytes() + error_code_text.spec_bytes() + (
        "\r\n").spec_bytes() + (
        "[SUGGESTION] Possible cause: Invalid memory access. Solution: Check page tables and memory accesses.\r\n").spec_bytes());
    }
    FaultAction::Halt
}

/// Timer tick: a routine event; acknowledge the interrupt controller and
/// resume.
pub fn timer_interrupt_handler(out: &mut DebugSerial) -> (r: FaultAction)
    ensures
        final(out).out@ == old(out).out@,
        r == FaultAction::AcknowledgeAndReturn,
{
    proof {
        assert(out.out@ =~= old(out).out@);
    }
    FaultAction::AcknowledgeAndReturn
}

/// What the keyboard handler prints for one scancode: the acknowledgement
/// byte is noted, a key press is reported with its printable character
/// where it has one, and key releases are passed over in silence.
pub open spec fn spec_keyboard_output(scancode: u8) -> Seq<u8> {
    if scancode == 0xfa {
        (
        "[INFO] INT 0x21: Keyboard interrupt, received 0xFA (possible ACK, not a keypress)\r\n").spec_bytes()
    } else if scancode & 0x80 == 0 {
        let head = ("[INFO] INT 0x21: Keyboard interrupt, scancode: 0x").spec_bytes()
            + spec_hex_lower_bytes(scancode as u64);
        let ascii = spec_scancode_to_ascii(scancode);
        if ascii matches Some(a) && (0x21 <= ascii.unwrap() <= 0x7e || ascii.unwrap() == 0x20) {
            head + (" | ASCII: '").spec_bytes() + seq![ascii.unwrap()] + ("'\r\n").spec_bytes()
        } else {
            head + (" | ASCII: Unknown\r\n").spec_bytes()
        }
    } else {
        Seq::empty()
    }
}

/// Keyboard interrupt: reports the scancode the controller handed over,
/// then acknowledges the interrupt controller and resumes.
pub fn keyboard_interrupt_handler(out: &mut DebugSerial, scancode: u8) -> (r: FaultAction)
    ensures
        final(out).out@ == old(out).out@ + spec_keyboard_output(scancode),
        r == FaultAction::AcknowledgeAndReturn,
{
    if scancode == 0xfa {
        out.write_str(
            "[INFO] INT 0x21: Keyboard interrupt, received 0xFA (possible ACK, not a keypress)\r\n",
        );
    } else if scancode & 0x80 == 0 {
        out.write_str("[INFO] INT 0x21: Keyboard interrupt, scancode: 0x");
        let digits = hex_lower_bytes(scancode as u64);
        out.write_bytes(&digits);
        let converted = scancode_to_ascii(scancode);
        match converted {
            Some(ascii) if (0x21 <= ascii && ascii <= 0x7e) || ascii == 0x20 => {
                out.write_str(" | ASCII: '");
                out.put_byte(ascii);
                out.write_str("'\r\n");
            },
            _ => {
                out.write_str(" | ASCII: Unknown\r\n");
            },
        }
        proof {
            assert(out.out@ =~= old(out).out@ + spec_keyboard_output(scancode));
        }
    } else {
        proof {
            assert(out.out@ =~= old(out).out@ + Seq::<u8>::empty());
        }
    }
    FaultAction::AcknowledgeAndReturn
}

/// Mouse interrupt: noted and resumed.
pub fn mouse_interrupt_handler(out: &mut DebugSerial) -> (r: FaultAction)
    ensures
        final(out).out@ == old(out).out@ + ("[INFO] INT 0x2C: Mouse interrupt\r\n").spec_bytes(),
        r == FaultAction::Return,
{
    out.write_str("[INFO] INT 0x2C: Mouse interrupt\r\n");
    FaultAction::Return
}

/// Disk controller interrupt: noted and resumed.
pub fn disk_interrupt_handler(out: &mut DebugSerial) -> (r: FaultAction)
    ensures
        final(out).out@ == old(out).out@ + ("[INFO] INT 0x2E: Disk controller interrupt\r\n").spec_bytes(),
        r == FaultAction::Return,
{
    out.write_str("[INFO] INT 0x2E: Disk controller interrupt\r\n");
    FaultAction::Return
}

/// Network card interrupt: noted and resumed.
pub fn network_interrupt_handler(out: &mut DebugSerial) -> (r: FaultAction)
    ensures
        final(out).out@ == old(out).out@ + ("[INFO] INT 0x2B: Network card interrupt\r\n").spec_bytes(),
        r == FaultAction::Return,
{
    out.write_str("[INFO] INT 0x2B: Network card interrupt\r\n");
    FaultAction::Return
}

/// USB controller interrupt: noted and resumed.
pub fn usb_interrupt_handler(out: &mut DebugSerial) -> (r: FaultAction)
    ensures
        final(out).out@ == old(out).out@ + ("[INFO] INT 0x37: USB controller interrupt\r\n").spec_bytes(),
        r == FaultAction::Return,
{
    out.write_str("[INFO] INT 0x37: USB controller interrupt\r\n");
    FaultAction::Return
}

/// Any other wired device line: noted and resumed.
pub fn other_hardware_interrupt_handler(out: &mut DebugSerial) -> (r: FaultAction)
    ensures
        final(out).out@ == old(out).out@ + ("[INFO] INT 0x2F: Other hardware device interrupt\r\n").spec_bytes(),
        r == FaultAction::Return,
{
    out.write_str("[INFO] INT 0x2F: Other hardware device interrupt\r\n");
    FaultAction::Return
}

} // verus!
