//! The second-stage boot routine: first code after the boot ROM. It
//! configures the serial-flash controller for memory-mapped reads, points the
//! vector-table-offset register at the application's vector table inside the
//! flash window, loads the stack pointer from word 0 of that table, validates
//! the reset entry point from word 1, and either jumps there — without
//! pushing a return address — or sits in a permanent low-power wait.
//!
//! The flash window is modelled as a sequence of 32-bit words starting at
//! the window's base address.

use vstd::prelude::*;

use crate::control::Divergence;
use crate::regs::SsiHw;

verus! {

/// Base address of the memory-mapped flash window.
pub const XIP_BASE: u32 = 0x10000000;

/// Size of the flash window in bytes.
pub const XIP_WINDOW_BYTES: u32 = 0x1000000;

/// Byte offset of the application's vector table within the flash window.
pub const APP_VECTOR_TABLE_OFFSET: u32 = 0x100;

/// Clock divider for the flash part's read protocol.
pub const SSI_BAUD: u32 = 4;

/// Frame format: EEPROM mode, 32 clocks per data frame.
pub const SSI_CTRLR0_VALUE: u32 = (3u32 << 8) | (31u32 << 16);

/// Read-command opcode (03h) with its addressing configuration.
pub const SSI_SPI_CTRLR0_VALUE: u32 = (6u32 << 2) | (2u32 << 8) | (0x03u32 << 24);

/// Whether `addr` lies within the flash execute window, the only place the
/// handoff may jump to.
pub open spec fn valid_handoff(addr: u32) -> bool {
    XIP_BASE <= addr < XIP_BASE + XIP_WINDOW_BYTES
}

/// The second-stage boot routine. Entered with the processor in an unknown
/// register state; never returns. Disables the flash controller, programs
/// divider, frame format and read command while it is disabled, re-enables
/// it, relocates the vector-table-offset register to the application's
/// table, reads the initial stack pointer and the reset entry point from the
/// table's first two words, and hands off — or, if the entry point lies
/// outside the flash window, fail-stops in a permanent wait.
#[allow(non_snake_case)]
pub fn bootStage2(ssi: &mut SsiHw, vtor: &mut u32, flash: &Vec<u32>) -> (d: Divergence)
    requires
        flash@.len() >= (APP_VECTOR_TABLE_OFFSET / 4) + 2,
    ensures
        final(ssi).ssienr == 1,
        final(ssi).baudr == SSI_BAUD,
        final(ssi).ctrlr0 == SSI_CTRLR0_VALUE,
        final(ssi).spi_ctrlr0 == SSI_SPI_CTRLR0_VALUE,
        *final(vtor) == XIP_BASE + APP_VECTOR_TABLE_OFFSET,
        valid_handoff(flash@[APP_VECTOR_TABLE_OFFSET as int / 4 + 1]) ==> d == (Divergence::Jump {
            addr: flash@[APP_VECTOR_TABLE_OFFSET as int / 4 + 1],
            stack_pointer: flash@[APP_VECTOR_TABLE_OFFSET as int / 4],
        }),
        !valid_handoff(flash@[APP_VECTOR_TABLE_OFFSET as int / 4 + 1]) ==> d == Divergence::Halt,
{
    ssi.write_ssienr(0);
    ssi.write_baudr(SSI_BAUD);
    ssi.write_ctrlr0(SSI_CTRLR0_VALUE);
    ssi.write_spi_ctrlr0(SSI_SPI_CTRLR0_VALUE);
    ssi.write_ssienr(1);

    let vector_table_addr = XIP_BASE + APP_VECTOR_TABLE_OFFSET;
    *vtor = vector_table_addr;

    let word = ((vector_table_addr - XIP_BASE) / 4) as usize;
    let stack_pointer = flash[word];
    let reset_handler = flash[word + 1];

    if reset_handler >= XIP_BASE && reset_handler < XIP_BASE + XIP_WINDOW_BYTES {
        Divergence::Jump { addr: reset_handler, stack_pointer }
    } else {
        Divergence::Halt
    }
}

} // verus!
