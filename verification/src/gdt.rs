//! The segment descriptor table, the task-state segment and its dedicated
//! fault stacks.
//!
//! The table is built exactly once — kernel code and data, user code and
//! data, and a task-state-segment descriptor — and the segment selectors
//! that go with it are fixed by construction. The task-state segment records
//! the tops of two statically sized stacks so that a double fault or a
//! non-maskable interrupt runs on a known-good stack. Loading the table into
//! the CPU and reprogramming the segment registers is the platform shim's
//! job; everything the table holds is decided and proved here.

use vstd::prelude::*;

verus! {

/// Number of interrupt-stack-table slots the hardware offers.
pub const IST_SLOTS: usize = 7;

/// Interrupt-stack-table slot reserved for the double-fault stack.
pub const DOUBLE_FAULT_IST_INDEX: u16 = 1;

/// Interrupt-stack-table slot reserved for the non-maskable-interrupt stack.
pub const NMI_IST_INDEX: u16 = 2;

/// Size in bytes of each dedicated fault stack.
pub const IST_STACK_SIZE: u64 = 4096 * 2;

/// Descriptor bits for the 64-bit kernel code segment.
///
/// Relies on x86_64's `Descriptor::kernel_code_segment`, which returns the
/// crate's `KERNEL_CODE64` flag constant.
#[verifier::external_body]
fn kernel_code_descriptor() -> (r: u64)
    ensures
        r == 0x00af9b000000ffffu64,
{
    match x86_64::structures::gdt::Descriptor::kernel_code_segment() {
        x86_64::structures::gdt::Descriptor::UserSegment(v) => v,
        x86_64::structures::gdt::Descriptor::SystemSegment(v, _) => v,
    }
}

/// Descriptor bits for the kernel data segment.
///
/// Relies on x86_64's `Descriptor::kernel_data_segment`, which returns the
/// crate's `KERNEL_DATA` flag constant.
#[verifier::external_body]
fn kernel_data_descriptor() -> (r: u64)
    ensures
        r == 0x00cf93000000ffffu64,
{
    match x86_64::structures::gdt::Descriptor::kernel_data_segment() {
        x86_64::structures::gdt::Descriptor::UserSegment(v) => v,
        x86_64::structures::gdt::Descriptor::SystemSegment(v, _) => v,
    }
}

/// Descriptor bits for the 64-bit user code segment.
///
/// Relies on x86_64's `Descriptor::user_code_segment`, which returns the
/// crate's `USER_CODE64` flag constant.
#[verifier::external_body]
fn user_code_descriptor() -> (r: u64)
    ensures
        r == 0x00affb000000ffffu64,
{
    match x86_64::structures::gdt::Descriptor::user_code_segment() {
        x86_64::structures::gdt::Descriptor::UserSegment(v) => v,
        x86_64::structures::gdt::Descriptor::SystemSegment(v, _) => v,
    }
}

/// Descriptor bits for the user data segment.
///
/// Relies on x86_64's `Descriptor::user_data_segment`, which returns the
/// crate's `USER_DATA` flag constant.
#[verifier::external_body]
fn user_data_descriptor() -> (r: u64)
    ensures
        r == 0x00cff3000000ffffu64,
{
    match x86_64::structures::gdt::Descriptor::user_data_segment() {
        x86_64::structures::gdt::Descriptor::UserSegment(v) => v,
        x86_64::structures::gdt::Descriptor::SystemSegment(v, _) => v,
    }
}

/// One statically allocated fault-stack region, by its placement.
#[derive(Clone, Copy, Debug, PartialEq, Eq, Structural)]
pub struct FaultStackRegion {
    /// Lowest address of the region.
    pub base: u64,
    /// Size of the region in bytes.
    pub size: u64,
}

impl FaultStackRegion {
    /// A usable fault stack: the sized region fits the address space.
    pub open spec fn wf(self) -> bool {
        &&& self.size == IST_STACK_SIZE
        &&& self.base + self.size <= u64::MAX
    }

    /// The address loaded into the stack-table slot: one past the region's
    /// last byte, since stacks grow downward.
    pub open spec fn spec_top(self) -> int {
        self.base + self.size
    }

    /// True when `addr` points into this region (usable as its stack top).
    pub open spec fn contains_top(self, addr: int) -> bool {
        self.base < addr <= self.base + self.size
    }
}

/// The task-state segment, as plain values: its interrupt-stack-table.
#[derive(Debug)]
pub struct TaskStateModel {
    /// The seven stack-table slots; a zero slot is unused.
    pub ist: Vec<u64>,
}

impl TaskStateModel {
    /// The slots the bring-up sequence fills, and nothing else.
    pub open spec fn wf(self, df_stack: FaultStackRegion, nmi_stack: FaultStackRegion) -> bool {
        &&& self.ist.len() == IST_SLOTS
        &&& self.ist[DOUBLE_FAULT_IST_INDEX as int] == df_stack.spec_top()
        &&& self.ist[NMI_IST_INDEX as int] == nmi_stack.spec_top()
        &&& forall|i: int|
            0 <= i < IST_SLOTS && i != DOUBLE_FAULT_IST_INDEX && i != NMI_IST_INDEX
                ==> self.ist[i] == 0
    }
}

/// Builds the task-state segment for the given fault stacks: the
/// double-fault and non-maskable-interrupt slots hold the stack tops, every
/// other slot stays empty.
pub fn build_tss(df_stack: FaultStackRegion, nmi_stack: FaultStackRegion) -> (tss: TaskStateModel)
    requires
        df_stack.wf(),
        nmi_stack.wf(),
    ensures
        tss.wf(df_stack, nmi_stack),
        df_stack.contains_top(tss.ist[DOUBLE_FAULT_IST_INDEX as int] as int),
        nmi_stack.contains_top(tss.ist[NMI_IST_INDEX as int] as int),
{
    let mut ist: Vec<u64> = Vec::new();
    let mut i: usize = 0;
    while i < IST_SLOTS
        invariant
            i <= IST_SLOTS,
            ist.len() == i,
            forall|j: int| 0 <= j < i ==> ist[j] == 0,
        decreases IST_SLOTS - i,
    {
        ist.push(0);
        i += 1;
    }
    ist.set(DOUBLE_FAULT_IST_INDEX as usize, df_stack.base + df_stack.size);
    ist.set(NMI_IST_INDEX as usize, nmi_stack.base + nmi_stack.size);
    TaskStateModel { ist }
}

/// The low quadword of the task-state-segment descriptor for a segment
/// based at `base`: present bit, available-64-bit-TSS type, the fixed limit
/// of the segment, and the low 32 base bits in their fields.
pub open spec fn spec_tss_descriptor_low(base: u64) -> u64 {
    0x67u64 | ((base & 0xffffff) << 16) | (0x9u64 << 40) | (1u64 << 47) | (((base >> 24)
        & 0xff) << 56)
}

/// The high quadword of the task-state-segment descriptor: the upper 32
/// base bits.
pub open spec fn spec_tss_descriptor_high(base: u64) -> u64 {
    base >> 32
}

/// Computes the two quadwords of the task-state-segment descriptor for a
/// task-state segment placed at `base`.
pub fn tss_descriptor(base: u64) -> (r: (u64, u64))
    ensures
        r.0 == spec_tss_descriptor_low(base),
        r.1 == spec_tss_descriptor_high(base),
{
    let low: u64 = 0x67u64 | ((base & 0xffffff) << 16) | (0x9u64 << 40) | (1u64 << 47) | (((base
        >> 24) & 0xff) << 56);
    let high: u64 = base >> 32;
    (low, high)
}

/// The five selectors handed back by descriptor-table construction.
#[derive(Clone, Copy, Debug, PartialEq, Eq, Structural)]
pub struct Selectors {
    /// Kernel code segment selector.
    pub code: u16,
    /// Kernel data segment selector.
    pub data: u16,
    /// User code segment selector, requested privilege level 3.
    pub user_code: u16,
    /// User data segment selector, requested privilege level 3.
    pub user_data: u16,
    /// Task-state-segment selector.
    pub tss: u16,
}

/// The selector for table index `index` at requested privilege `rpl`.
pub open spec fn spec_selector(index: u16, rpl: u16) -> u16 {
    (index * 8 + rpl) as u16
}

/// The selectors the fixed table layout produces: kernel segments at
/// privilege 0, user segments at privilege 3.
pub open spec fn spec_selectors() -> Selectors {
    Selectors {
        code: spec_selector(1, 0),
        data: spec_selector(2, 0),
        user_code: spec_selector(3, 3),
        user_data: spec_selector(4, 3),
        tss: spec_selector(5, 0),
    }
}

/// The descriptor table as plain values, with the selectors that index it.
pub struct GdtModel {
    /// The raw descriptor quadwords, null descriptor first.
    pub entries: Vec<u64>,
    /// The selectors for the five segments.
    pub selectors: Selectors,
}

impl GdtModel {
    /// The exact table the bring-up sequence builds for a task-state
    /// segment at `tss_base`: null, kernel code, kernel data, user code,
    /// user data, then the two-quadword task-state descriptor.
    pub open spec fn wf(self, tss_base: u64) -> bool {
        &&& self.entries.len() == 7
        &&& self.entries[0] == 0
        &&& self.entries[1] == 0x00af9b000000ffffu64
        &&& self.entries[2] == 0x00cf93000000ffffu64
        &&& self.entries[3] == 0x00affb000000ffffu64
        &&& self.entries[4] == 0x00cff3000000ffffu64
        &&& self.entries[5] == spec_tss_descriptor_low(tss_base)
        &&& self.entries[6] == spec_tss_descriptor_high(tss_base)
        &&& self.selectors == spec_selectors()
    }
}

/// Builds the descriptor table for a task-state segment at `tss_base`.
pub fn build_gdt(tss_base: u64) -> (g: GdtModel)
    ensures
        g.wf(tss_base),
{
    let mut entries: Vec<u64> = Vec::new();
    entries.push(0);
    entries.push(kernel_code_descriptor());
    entries.push(kernel_data_descriptor());
    entries.push(user_code_descriptor());
    entries.push(user_data_descriptor());
    let (tss_low, tss_high) = tss_descriptor(tss_base);
    entries.push(tss_low);
    entries.push(tss_high);
    let selectors = Selectors {
        code: 1 * 8 + 0,
        data: 2 * 8 + 0,
        user_code: 3 * 8 + 3,
        user_data: 4 * 8 + 3,
        tss: 5 * 8 + 0,
    };
    GdtModel { entries, selectors }
}

/// The one-time owner of the task-state segment.
///
/// The first call builds the segment for its stacks; later calls hand the
/// first build back untouched, whatever they are given.
pub struct TssController {
    /// The fault stacks and segment of the first initialization, if any.
    pub built: Option<(FaultStackRegion, FaultStackRegion, TaskStateModel)>,
}

impl TssController {
    /// A controller that has not built the segment yet.
    pub fn new() -> (c: TssController)
        ensures
            c.built is None,
    {
        TssController { built: None }
    }

    /// Returns the task-state segment, building it on first use with the
    /// given fault stacks and never rebuilding it afterwards.
    pub fn get_tss(&mut self, df_stack: FaultStackRegion, nmi_stack: FaultStackRegion) -> (tss:
        TaskStateModel)
        requires
            df_stack.wf(),
            nmi_stack.wf(),
        ensures
            old(self).built is None ==> (final(self).built matches Some((df, nmi, t)) && {
                &&& df == df_stack
                &&& nmi == nmi_stack
                &&& t.wf(df_stack, nmi_stack)
            }),
            old(self).built matches Some((df0, nmi0, t0)) ==> (final(self).built matches Some(
                (df1, nmi1, t1),
            ) && df1 == df0 && nmi1 == nmi0 && t1.ist@ == t0.ist@),
            final(self).built matches Some((df, nmi, t)) && tss.ist@ == t.ist@,
    {
        match &self.built {
            Some((_, _, t)) => copy_tss(t),
            None => {
                let tss = build_tss(df_stack, nmi_stack);
                let kept = copy_tss(&tss);
                self.built = Some((df_stack, nmi_stack, kept));
                tss
            },
        }
    }
}

/// A field-for-field copy of a task-state segment.
fn copy_tss(t: &TaskStateModel) -> (r: TaskStateModel)
    ensures
        r.ist@ == t.ist@,
{
    let mut ist: Vec<u64> = Vec::new();
    let n = t.ist.len();
    let mut i: usize = 0;
    while i < n
        invariant
            i <= n,
            n == t.ist.len(),
            ist@ == t.ist@.take(i as int),
        decreases n - i,
    {
        ist.push(t.ist[i]);
        proof {
            assert(t.ist@.take(i + 1) =~= t.ist@.take(i as int).push(t.ist@[i as int]));
        }
        i += 1;
    }
    proof {
        assert(t.ist@.take(n as int) =~= t.ist@);
    }
    TaskStateModel { ist }
}

/// The one-time owner of the descriptor table and task-state segment.
///
/// Construction happens on the first initialization call; later calls hand
/// back the state of the first, never rebuilding or re-registering stacks.
pub struct GdtController {
    /// The fault stacks and table of the first initialization, if any.
    pub built: Option<(FaultStackRegion, FaultStackRegion, TaskStateModel, GdtModel)>,
}

impl GdtController {
    /// A controller that has not initialized anything yet.
    pub fn new() -> (c: GdtController)
        ensures
            c.built is None,
    {
        GdtController { built: None }
    }

    /// Builds the task-state segment and descriptor table once.
    ///
    /// The first call records the fault stacks, fills the two dedicated
    /// stack-table slots, and builds the table for a task-state segment at
    /// `tss_base`. Every later call leaves the recorded state exactly as it
    /// is, whatever arguments it is given, and returns the selectors of the
    /// first build.
    pub fn init_gdt(
        &mut self,
        tss_base: u64,
        df_stack: FaultStackRegion,
        nmi_stack: FaultStackRegion,
    ) -> (sel: Selectors)
        requires
            df_stack.wf(),
            nmi_stack.wf(),
        ensures
            old(self).built is None ==> (final(self).built matches Some((df, nmi, tss, g)) && {
                &&& df == df_stack
                &&& nmi == nmi_stack
                &&& tss.wf(df_stack, nmi_stack)
                &&& g.wf(tss_base)
            }),
            old(self).built matches Some((df0, nmi0, tss0, g0)) ==> (final(self).built matches Some(
                (df1, nmi1, tss1, g1),
            ) && {
                &&& df1 == df0
                &&& nmi1 == nmi0
                &&& tss1.ist@ == tss0.ist@
                &&& g1.entries@ == g0.entries@
                &&& g1.selectors == g0.selectors
            }),
            final(self).built matches Some((df, nmi, tss, g)) && sel == g.selectors,
    {
        match &self.built {
            Some((_, _, _, g)) => g.selectors,
            None => {
                let tss = build_tss(df_stack, nmi_stack);
                let g = build_gdt(tss_base);
                let sel = g.selectors;
                self.built = Some((df_stack, nmi_stack, tss, g));
                sel
            },
        }
    }
}

} // verus!
