//! Application-side startup: the reset routine that establishes the C-style
//! memory image (copy initialized data from flash, zero the uninitialized
//! region), points the vector-table-offset register at the application's
//! table, and hands off to the application entry point; the vector table
//! itself; and the default fail-stop exception routines.
//!
//! Memory is modelled word-addressed: `flash` and `ram` are sequences of
//! 32-bit words, and the linker-supplied symbols become word indices into
//! them.

use vstd::prelude::*;

use crate::control::Divergence;
use crate::transmit::io_irq_effect;
use crate::transmit::ioIrqBank0;
use crate::transmit::Machine;

verus! {

/// Address of the application's vector table: a fixed offset into the
/// memory-mapped flash window, written to the vector-table-offset register.
pub const APP_VECTOR_TABLE_ADDR: u32 = 0x10000100;

/// Number of entries in the vector table, fixed by the architecture.
pub const VECTOR_ENTRIES: usize = 48;

/// The linker-supplied memory layout, as word indices: `etext` into the
/// flash image (where the initializer image for the data region starts),
/// the rest into RAM.
pub struct MemLayout {
    /// First word of the flash-resident initializer image.
    pub etext: usize,
    /// First word of the initialized-data region in RAM.
    pub sdata: usize,
    /// One past the last word of the initialized-data region.
    pub edata: usize,
    /// First word of the uninitialized-data region in RAM.
    pub sbss: usize,
    /// One past the last word of the uninitialized-data region.
    pub ebss: usize,
}

impl MemLayout {
    /// What the linker guarantees of the symbols it emits: both RAM regions
    /// lie inside RAM and do not overlap, and the initializer image for the
    /// whole data region lies inside the flash image.
    pub open spec fn wf(self, flash_len: nat, ram_len: nat) -> bool {
        &&& self.sdata <= self.edata <= ram_len
        &&& self.sbss <= self.ebss <= ram_len
        &&& self.etext + (self.edata - self.sdata) <= flash_len
        &&& (self.edata <= self.sbss || self.ebss <= self.sdata)
    }
}

/// The data loop of the startup routine: word-copies the flash-resident
/// initializer image into the RAM initialized-data range, touching nothing
/// else.
fn copy_data_image(layout: &MemLayout, flash: &Vec<u32>, ram: &mut Vec<u32>)
    requires
        layout.wf(flash@.len(), old(ram)@.len()),
    ensures
        final(ram)@.len() == old(ram)@.len(),
        forall|i: int|
            layout.sdata <= i < layout.edata ==> final(ram)@[i] == flash@[layout.etext
                + (i - layout.sdata)],
        forall|i: int|
            0 <= i < old(ram)@.len() && !(layout.sdata <= i < layout.edata) ==> final(ram)@[i]
                == old(ram)@[i],
{
    let ghost ram0: Seq<u32> = ram@;
    let flash_len: usize = flash.len();
    let mut src: usize = layout.etext;
    let mut dst: usize = layout.sdata;
    while dst < layout.edata
        invariant
            layout.wf(flash@.len(), ram0.len()),
            flash@.len() == flash_len,
            ram@.len() == ram0.len(),
            layout.sdata <= dst <= layout.edata,
            src == layout.etext + (dst - layout.sdata),
            forall|i: int|
                layout.sdata <= i < dst ==> ram@[i] == flash@[layout.etext + (i - layout.sdata)],
            forall|i: int|
                0 <= i < ram0.len() && !(layout.sdata <= i < dst) ==> ram@[i] == ram0[i],
        decreases layout.edata - dst,
    {
        let word = flash[src];
        ram.set(dst, word);
        src = src + 1;
        dst = dst + 1;
    }
}

/// The zero loop of the startup routine: word-stores zero over the RAM
/// uninitialized-data range, touching nothing else.
fn zero_bss(layout: &MemLayout, ram: &mut Vec<u32>)
    requires
        layout.sbss <= layout.ebss <= old(ram)@.len(),
    ensures
        final(ram)@.len() == old(ram)@.len(),
        forall|i: int| layout.sbss <= i < layout.ebss ==> final(ram)@[i] == 0u32,
        forall|i: int|
            0 <= i < old(ram)@.len() && !(layout.sbss <= i < layout.ebss) ==> final(ram)@[i]
                == old(ram)@[i],
{
    let ghost ram0: Seq<u32> = ram@;
    let mut bss: usize = layout.sbss;
    while bss < layout.ebss
        invariant
            layout.sbss <= bss <= layout.ebss <= ram0.len(),
            ram@.len() == ram0.len(),
            forall|i: int| layout.sbss <= i < bss ==> ram@[i] == 0u32,
            forall|i: int| 0 <= i < ram0.len() && !(layout.sbss <= i < bss) ==> ram@[i] == ram0[i],
        decreases layout.ebss - bss,
    {
        ram.set(bss, 0u32);
        bss = bss + 1;
    }
}

/// The reset routine: entered once by the boot routine's handoff. Establishes
/// the runtime memory image — the initialized-data range becomes a word-for-
/// word copy of the flash-resident initializer image and the uninitialized-
/// data range becomes all zero, with every other RAM word untouched — then
/// writes the application's own vector-table-offset value and transfers to
/// the application entry point, never returning.
#[allow(non_snake_case)]
pub fn resetHandler(
    layout: &MemLayout,
    flash: &Vec<u32>,
    ram: &mut Vec<u32>,
    vtor: &mut u32,
) -> (d: Divergence)
    requires
        layout.wf(flash@.len(), old(ram)@.len()),
    ensures
        final(ram)@.len() == old(ram)@.len(),
        forall|i: int|
            layout.sdata <= i < layout.edata ==> final(ram)@[i] == flash@[layout.etext
                + (i - layout.sdata)],
        forall|i: int| layout.sbss <= i < layout.ebss ==> final(ram)@[i] == 0u32,
        forall|i: int|
            0 <= i < old(ram)@.len() && !(layout.sdata <= i < layout.edata) && !(layout.sbss <= i
                < layout.ebss) ==> final(ram)@[i] == old(ram)@[i],
        *final(vtor) == APP_VECTOR_TABLE_ADDR,
        d == Divergence::EnterMain,
{
    copy_data_image(layout, flash, ram);
    zero_bss(layout, ram);
    *vtor = APP_VECTOR_TABLE_ADDR;
    Divergence::EnterMain
}

/// The routines a vector-table entry can dispatch to.
#[derive(Clone, Copy, Debug, PartialEq, Eq, Structural)]
pub enum HandlerKind {
    /// The reset routine above.
    Reset,
    /// Non-maskable interrupt; falls through to the fail-stop routine.
    Nmi,
    /// Hard fault; falls through to the fail-stop routine.
    HardFault,
    /// Supervisor call; falls through to the fail-stop routine.
    SvCall,
    /// Pendable service call; falls through to the fail-stop routine.
    PendSv,
    /// System tick; falls through to the fail-stop routine.
    SysTick,
    /// The one implemented peripheral interrupt: the GPIO bank routine.
    IoIrqBank0,
    /// The shared fail-stop routine for everything unconfigured.
    Default,
}

/// One entry of the vector table: the initial stack-pointer value, a routine
/// entry point, or a reserved zero placeholder.
#[derive(Clone, Copy, Debug, PartialEq, Eq, Structural)]
pub enum VectorTableEntry {
    /// Entry 0: the value hardware loads into the stack pointer on reset.
    StackPointer(u32),
    /// An entry point that never returns normally.
    Handler(HandlerKind),
    /// An architecturally reserved zero placeholder.
    Reserved,
}

/// The fixed layout of the vector table, entry by entry: word 0 the initial
/// stack pointer, word 1 the reset routine, words 2–15 the core exceptions
/// (reserved where the architecture says so), words 16–47 the peripheral
/// interrupt lines, all fail-stop but line 13, the GPIO bank.
pub open spec fn vector_table_spec(stack_top: u32) -> Seq<VectorTableEntry> {
    seq![
        VectorTableEntry::StackPointer(stack_top),
        VectorTableEntry::Handler(HandlerKind::Reset),
        VectorTableEntry::Handler(HandlerKind::Nmi),
        VectorTableEntry::Handler(HandlerKind::HardFault),
        VectorTableEntry::Handler(HandlerKind::Default),
        VectorTableEntry::Handler(HandlerKind::Default),
        VectorTableEntry::Handler(HandlerKind::Default),
        VectorTableEntry::Reserved,
        VectorTableEntry::Reserved,
        VectorTableEntry::Reserved,
        VectorTableEntry::Reserved,
        VectorTableEntry::Handler(HandlerKind::SvCall),
        VectorTableEntry::Handler(HandlerKind::Default),
        VectorTableEntry::Reserved,
        VectorTableEntry::Handler(HandlerKind::PendSv),
        VectorTableEntry::Handler(HandlerKind::SysTick),
        VectorTableEntry::Handler(HandlerKind::Default),
        VectorTableEntry::Handler(HandlerKind::Default),
        VectorTableEntry::Handler(HandlerKind::Default),
        VectorTableEntry::Handler(HandlerKind::Default),
        VectorTableEntry::Handler(HandlerKind::Default),
        VectorTableEntry::Handler(HandlerKind::Default),
        VectorTableEntry::Handler(HandlerKind::Default),
        VectorTableEntry::Handler(HandlerKind::Default),
        VectorTableEntry::Handler(HandlerKind::Default),
        VectorTableEntry::Handler(HandlerKind::Default),
        VectorTableEntry::Handler(HandlerKind::Default),
        VectorTableEntry::Handler(HandlerKind::Default),
        VectorTableEntry::Handler(HandlerKind::Default),
        VectorTableEntry::Handler(HandlerKind::IoIrqBank0),
        VectorTableEntry::Handler(HandlerKind::Default),
        VectorTableEntry::Handler(HandlerKind::Default),
        VectorTableEntry::Handler(HandlerKind::Default),
        VectorTableEntry::Handler(HandlerKind::Default),
        VectorTableEntry::Handler(HandlerKind::Default),
        VectorTableEntry::Handler(HandlerKind::Default),
        VectorTableEntry::Handler(HandlerKind::Default),
        VectorTableEntry::Handler(HandlerKind::Default),
        VectorTableEntry::Handler(HandlerKind::Default),
        VectorTableEntry::Handler(HandlerKind::Default),
        VectorTableEntry::Handler(HandlerKind::Default),
        VectorTableEntry::Handler(HandlerKind::Default),
        VectorTableEntry::Handler(HandlerKind::Default),
        VectorTableEntry::Handler(HandlerKind::Default),
        VectorTableEntry::Handler(HandlerKind::Default),
        VectorTableEntry::Handler(HandlerKind::Default),
        VectorTableEntry::Handler(HandlerKind::Default),
        VectorTableEntry::Handler(HandlerKind::Default),
    ]
}

/// Builds the vector table for a given initial stack-pointer value, exactly
/// as `vector_table_spec` lays it out.
pub fn vector_table(stack_top: u32) -> (t: Vec<VectorTableEntry>)
    ensures
        t@ == vector_table_spec(stack_top),
        t@.len() == VECTOR_ENTRIES,
{
    let mut t: Vec<VectorTableEntry> = Vec::new();
    t.push(VectorTableEntry::StackPointer(stack_top));
    t.push(VectorTableEntry::Handler(HandlerKind::Reset));
    t.push(VectorTableEntry::Handler(HandlerKind::Nmi));
    t.push(VectorTableEntry::Handler(HandlerKind::HardFault));
    t.push(VectorTableEntry::Handler(HandlerKind::Default));
    t.push(VectorTableEntry::Handler(HandlerKind::Default));
    t.push(VectorTableEntry::Handler(HandlerKind::Default));
    t.push(VectorTableEntry::Reserved);
    t.push(VectorTableEntry::Reserved);
    t.push(VectorTableEntry::Reserved);
    t.push(VectorTableEntry::Reserved);
    t.push(VectorTableEntry::Handler(HandlerKind::SvCall));
    t.push(VectorTableEntry::Handler(HandlerKind::Default));
    t.push(VectorTableEntry::Reserved);
    t.push(VectorTableEntry::Handler(HandlerKind::PendSv));
    t.push(VectorTableEntry::Handler(HandlerKind::SysTick));
    let mut irq: usize = 0;
    while irq < 32
        invariant
            irq <= 32,
            t@.len() == 16 + irq,
            t@ == vector_table_spec(stack_top).take(16 + irq as int),
        decreases 32 - irq,
    {
        if irq == 13 {
            t.push(VectorTableEntry::Handler(HandlerKind::IoIrqBank0));
        } else {
            t.push(VectorTableEntry::Handler(HandlerKind::Default));
        }
        irq = irq + 1;
        proof {
            assert(t@ =~= vector_table_spec(stack_top).take(16 + irq as int));
        }
    }
    proof {
        assert(t@ =~= vector_table_spec(stack_top));
    }
    t
}

/// Law: the vector table has exactly 48 entries; the defined routine stands
/// at each documented index, and the reserved zero placeholder at every
/// undocumented index (7–10 and 13).
pub proof fn lemma_vector_table_layout(stack_top: u32)
    ensures
        vector_table_spec(stack_top).len() == VECTOR_ENTRIES,
        vector_table_spec(stack_top)[0] == VectorTableEntry::StackPointer(stack_top),
        vector_table_spec(stack_top)[1] == VectorTableEntry::Handler(HandlerKind::Reset),
        vector_table_spec(stack_top)[2] == VectorTableEntry::Handler(HandlerKind::Nmi),
        vector_table_spec(stack_top)[3] == VectorTableEntry::Handler(HandlerKind::HardFault),
        vector_table_spec(stack_top)[11] == VectorTableEntry::Handler(HandlerKind::SvCall),
        vector_table_spec(stack_top)[14] == VectorTableEntry::Handler(HandlerKind::PendSv),
        vector_table_spec(stack_top)[15] == VectorTableEntry::Handler(HandlerKind::SysTick),
        vector_table_spec(stack_top)[29] == VectorTableEntry::Handler(HandlerKind::IoIrqBank0),
        forall|i: int|
            (7 <= i <= 10 || i == 13) ==> vector_table_spec(stack_top)[i]
                == VectorTableEntry::Reserved,
        forall|i: int|
            (i == 4 || i == 5 || i == 6 || i == 12) ==> vector_table_spec(stack_top)[i]
                == VectorTableEntry::Handler(HandlerKind::Default),
        forall|i: int|
            16 <= i < 48 && i != 29 ==> vector_table_spec(stack_top)[i]
                == VectorTableEntry::Handler(HandlerKind::Default),
{
}

/// The shared fail-stop routine: on any unconfigured exception or interrupt
/// the processor sits in a wait-for-interrupt loop and never makes progress.
#[allow(non_snake_case)]
pub fn defaultHandler() -> (d: Divergence)
    ensures
        d == Divergence::Halt,
{
    Divergence::Halt
}

/// Non-maskable-interrupt entry: falls through to the fail-stop routine.
#[allow(non_snake_case)]
pub fn nmiHandler() -> (d: Divergence)
    ensures
        d == Divergence::Halt,
{
    defaultHandler()
}

/// Hard-fault entry: falls through to the fail-stop routine.
#[allow(non_snake_case)]
pub fn hardFaultHandler() -> (d: Divergence)
    ensures
        d == Divergence::Halt,
{
    defaultHandler()
}

/// Supervisor-call entry: falls through to the fail-stop routine.
#[allow(non_snake_case)]
pub fn svCallHandler() -> (d: Divergence)
    ensures
        d == Divergence::Halt,
{
    defaultHandler()
}

/// Pendable-service-call entry: falls through to the fail-stop routine.
#[allow(non_snake_case)]
pub fn pendSvHandler() -> (d: Divergence)
    ensures
        d == Divergence::Halt,
{
    defaultHandler()
}

/// System-tick entry: falls through to the fail-stop routine.
#[allow(non_snake_case)]
pub fn sysTickHandler() -> (d: Divergence)
    ensures
        d == Divergence::Halt,
{
    defaultHandler()
}

/// Vector-table entry for the GPIO bank: calls the application's interrupt
/// routine directly, and if that routine returns — it should not under
/// normal use — falls through to the fail-stop routine as a safety net.
#[allow(non_snake_case)]
pub fn ioIrqBank0Handler(m: &mut Machine) -> (d: Divergence)
    requires
        old(m).wf(),
        old(m).io.gpio@[crate::transmit::BUTTON_PIN as int].ctrl
            == crate::transmit::GPIO_FUNC_SIO,
    ensures
        final(m).wf(),
        io_irq_effect(*old(m), *final(m)),
        d == Divergence::Halt,
{
    ioIrqBank0(m);
    defaultHandler()
}

} // verus!
