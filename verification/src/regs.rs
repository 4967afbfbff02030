//! Typed models of the memory-mapped register blocks the firmware touches.
//!
//! On the real part each block is a fixed physical address and every access is
//! a single volatile load or store. Here each block is a struct holding the
//! architecturally visible state, and each register access is a method whose
//! contract states exactly what that one access does — nothing is cached and
//! no access is reordered, mirroring the volatile-access discipline.

use vstd::prelude::*;

verus! {

/// SIO (single-cycle IO) block: GPIO output levels and output enables.
///
/// The hardware exposes write-only set/clear aliases for `gpio_out` and
/// `gpio_oe`; they appear here as methods. `out_history` records every value
/// `gpio_out` has taken, oldest first: it is the observable waveform on the
/// output lines, which the hardware would drive between the writes.
pub struct SioHw {
    /// Current GPIO output levels, one bit per pin.
    pub gpio_out: u32,
    /// Current GPIO output enables, one bit per pin.
    pub gpio_oe: u32,
    /// Every value `gpio_out` has taken since reset, oldest first.
    pub out_history: Vec<u32>,
}

impl SioHw {
    /// Power-on state: outputs low, all pins inputs, no writes recorded yet.
    pub fn new() -> (r: SioHw)
        ensures
            r.gpio_out == 0,
            r.gpio_oe == 0,
            r.out_history@ == Seq::<u32>::empty(),
    {
        SioHw { gpio_out: 0, gpio_oe: 0, out_history: Vec::new() }
    }

    /// Store to the GPIO output set alias: drives high every pin in `mask`.
    pub fn gpio_out_set(&mut self, mask: u32)
        ensures
            final(self).gpio_out == old(self).gpio_out | mask,
            final(self).gpio_oe == old(self).gpio_oe,
            final(self).out_history@ == old(self).out_history@.push(old(self).gpio_out | mask),
    {
        self.gpio_out = self.gpio_out | mask;
        self.out_history.push(self.gpio_out);
    }

    /// Store to the GPIO output clear alias: drives low every pin in `mask`.
    pub fn gpio_out_clr(&mut self, mask: u32)
        ensures
            final(self).gpio_out == old(self).gpio_out & !mask,
            final(self).gpio_oe == old(self).gpio_oe,
            final(self).out_history@ == old(self).out_history@.push(old(self).gpio_out & !mask),
    {
        self.gpio_out = self.gpio_out & !mask;
        self.out_history.push(self.gpio_out);
    }

    /// Store to the output-enable set alias: makes every pin in `mask` an output.
    pub fn gpio_oe_set(&mut self, mask: u32)
        ensures
            final(self).gpio_oe == old(self).gpio_oe | mask,
            final(self).gpio_out == old(self).gpio_out,
            final(self).out_history@ == old(self).out_history@,
    {
        self.gpio_oe = self.gpio_oe | mask;
    }

    /// Store to the output-enable clear alias: makes every pin in `mask` an input.
    pub fn gpio_oe_clr(&mut self, mask: u32)
        ensures
            final(self).gpio_oe == old(self).gpio_oe & !mask,
            final(self).gpio_out == old(self).gpio_out,
            final(self).out_history@ == old(self).out_history@,
    {
        self.gpio_oe = self.gpio_oe & !mask;
    }
}

/// Per-pin status and control pair of the IO bank.
pub struct GpioCtrl {
    /// GPIO status register.
    pub status: u32,
    /// GPIO control register; the low field selects the pin function.
    pub ctrl: u32,
}

/// IO bank 0: per-pin function selection and the edge-interrupt machinery.
///
/// Interrupt state is held in four 32-bit words per register, eight pins per
/// word, a 4-bit field per pin. `intr` latches the raw edge events and is
/// write-1-to-clear; `proc0_inte` enables fields; `proc0_intf` forces them;
/// `proc0_ints` is the masked status the processor reads, which hardware
/// derives from the other three — the well-formedness predicate keeps that
/// derivation.
pub struct IoBank0Hw {
    /// Status and control for each of the 30 pins.
    pub gpio: Vec<GpioCtrl>,
    /// Raw latched interrupts, write-1-to-clear.
    pub intr: Vec<u32>,
    /// Interrupt enable for processor 0.
    pub proc0_inte: Vec<u32>,
    /// Interrupt force for processor 0.
    pub proc0_intf: Vec<u32>,
    /// Masked interrupt status for processor 0.
    pub proc0_ints: Vec<u32>,
}

impl IoBank0Hw {
    /// Register counts fixed by the hardware, and the status derivation the
    /// hardware maintains: each status word is (raw and enable) or force.
    pub open spec fn wf(self) -> bool {
        &&& self.gpio@.len() == 30
        &&& self.intr@.len() == 4
        &&& self.proc0_inte@.len() == 4
        &&& self.proc0_intf@.len() == 4
        &&& self.proc0_ints@.len() == 4
        &&& forall|i: int|
            0 <= i < 4 ==> self.proc0_ints@[i] == (self.intr@[i] & self.proc0_inte@[i])
                | self.proc0_intf@[i]
    }

    /// Reset state of the block: no function selected, nothing latched,
    /// nothing enabled.
    pub fn new() -> (r: IoBank0Hw)
        ensures
            r.wf(),
            forall|i: int| 0 <= i < 30 ==> r.gpio@[i] == (GpioCtrl { status: 0, ctrl: 0 }),
            forall|i: int| 0 <= i < 4 ==> r.intr@[i] == 0,
            forall|i: int| 0 <= i < 4 ==> r.proc0_inte@[i] == 0,
            forall|i: int| 0 <= i < 4 ==> r.proc0_intf@[i] == 0,
            forall|i: int| 0 <= i < 4 ==> r.proc0_ints@[i] == 0,
    {
        let mut gpio: Vec<GpioCtrl> = Vec::new();
        let mut i: usize = 0;
        while i < 30
            invariant
                i <= 30,
                gpio@.len() == i,
                forall|j: int| 0 <= j < i ==> gpio@[j] == (GpioCtrl { status: 0, ctrl: 0 }),
            decreases 30 - i,
        {
            gpio.push(GpioCtrl { status: 0, ctrl: 0 });
            i = i + 1;
        }
        let mut intr: Vec<u32> = Vec::new();
        let mut inte: Vec<u32> = Vec::new();
        let mut intf: Vec<u32> = Vec::new();
        let mut ints: Vec<u32> = Vec::new();
        let mut k: usize = 0;
        while k < 4
            invariant
                k <= 4,
                intr@.len() == k,
                inte@.len() == k,
                intf@.len() == k,
                ints@.len() == k,
                forall|j: int| 0 <= j < k ==> intr@[j] == 0,
                forall|j: int| 0 <= j < k ==> inte@[j] == 0,
                forall|j: int| 0 <= j < k ==> intf@[j] == 0,
                forall|j: int| 0 <= j < k ==> ints@[j] == 0,
            decreases 4 - k,
        {
            intr.push(0);
            inte.push(0);
            intf.push(0);
            ints.push(0);
            k = k + 1;
        }
        proof {
            assert((0u32 & 0u32) | 0u32 == 0u32) by (bit_vector);
        }
        IoBank0Hw { gpio, intr, proc0_inte: inte, proc0_intf: intf, proc0_ints: ints }
    }

    /// Store to a pin's control register: selects its function, leaving its
    /// status and every other pin untouched.
    pub fn set_gpio_ctrl(&mut self, pin: usize, v: u32)
        requires
            old(self).wf(),
            pin < 30,
        ensures
            final(self).wf(),
            final(self).gpio@ == old(self).gpio@.update(
                pin as int,
                (GpioCtrl { status: old(self).gpio@[pin as int].status, ctrl: v }),
            ),
            final(self).intr@ == old(self).intr@,
            final(self).proc0_inte@ == old(self).proc0_inte@,
            final(self).proc0_intf@ == old(self).proc0_intf@,
            final(self).proc0_ints@ == old(self).proc0_ints@,
    {
        let status = self.gpio[pin].status;
        self.gpio.set(pin, GpioCtrl { status, ctrl: v });
    }

    /// Write-1-to-clear store to a raw-interrupt word: drops the latched
    /// edge bits in `mask` and lets the masked status follow.
    pub fn write_intr(&mut self, idx: usize, mask: u32)
        requires
            old(self).wf(),
            idx < 4,
        ensures
            final(self).wf(),
            final(self).intr@ == old(self).intr@.update(idx as int, old(self).intr@[idx as int] & !mask),
            final(self).proc0_inte@ == old(self).proc0_inte@,
            final(self).proc0_intf@ == old(self).proc0_intf@,
            final(self).proc0_ints@ == old(self).proc0_ints@.update(
                idx as int,
                ((old(self).intr@[idx as int] & !mask) & old(self).proc0_inte@[idx as int])
                    | old(self).proc0_intf@[idx as int],
            ),
            final(self).gpio@ == old(self).gpio@,
    {
        let raw = self.intr[idx] & !mask;
        self.intr.set(idx, raw);
        let status = (raw & self.proc0_inte[idx]) | self.proc0_intf[idx];
        self.proc0_ints.set(idx, status);
    }

    /// Sets enable bits in a processor-0 interrupt-enable word; the masked
    /// status follows.
    pub fn enable_proc0_inte(&mut self, idx: usize, mask: u32)
        requires
            old(self).wf(),
            idx < 4,
        ensures
            final(self).wf(),
            final(self).proc0_inte@ == old(self).proc0_inte@.update(
                idx as int,
                old(self).proc0_inte@[idx as int] | mask,
            ),
            final(self).intr@ == old(self).intr@,
            final(self).proc0_intf@ == old(self).proc0_intf@,
            final(self).proc0_ints@ == old(self).proc0_ints@.update(
                idx as int,
                (old(self).intr@[idx as int] & (old(self).proc0_inte@[idx as int] | mask))
                    | old(self).proc0_intf@[idx as int],
            ),
            final(self).gpio@ == old(self).gpio@,
    {
        let inte = self.proc0_inte[idx] | mask;
        self.proc0_inte.set(idx, inte);
        let status = (self.intr[idx] & inte) | self.proc0_intf[idx];
        self.proc0_ints.set(idx, status);
    }

    /// What the edge detector does when pins see a matching edge: latches
    /// the bits in `mask` into the raw word, and the masked status follows.
    /// This is the hardware's move, not a processor store.
    pub fn hw_latch_edge(&mut self, idx: usize, mask: u32)
        requires
            old(self).wf(),
            idx < 4,
        ensures
            final(self).wf(),
            final(self).intr@ == old(self).intr@.update(idx as int, old(self).intr@[idx as int] | mask),
            final(self).proc0_inte@ == old(self).proc0_inte@,
            final(self).proc0_intf@ == old(self).proc0_intf@,
            final(self).proc0_ints@ == old(self).proc0_ints@.update(
                idx as int,
                ((old(self).intr@[idx as int] | mask) & old(self).proc0_inte@[idx as int])
                    | old(self).proc0_intf@[idx as int],
            ),
            final(self).gpio@ == old(self).gpio@,
    {
        let raw = self.intr[idx] | mask;
        self.intr.set(idx, raw);
        let status = (raw & self.proc0_inte[idx]) | self.proc0_intf[idx];
        self.proc0_ints.set(idx, status);
    }

    /// Load from a processor-0 masked-status word.
    pub fn read_proc0_ints(&self, idx: usize) -> (r: u32)
        requires
            self.wf(),
            idx < 4,
        ensures
            r == self.proc0_ints@[idx as int],
    {
        self.proc0_ints[idx]
    }
}

/// Pad control bank: electrical properties of each pin's pad.
pub struct PadsBank0Hw {
    /// Voltage select for the whole bank.
    pub voltage_select: u32,
    /// Pad control word for each of the 30 pins.
    pub gpio: Vec<u32>,
    /// Pad control word for the SWCLK pad.
    pub swclk: u32,
    /// Pad control word for the SWD pad.
    pub swd: u32,
}

impl PadsBank0Hw {
    /// Register count fixed by the hardware.
    pub open spec fn wf(self) -> bool {
        self.gpio@.len() == 30
    }

    /// Reset state of the bank, all words zero.
    pub fn new() -> (r: PadsBank0Hw)
        ensures
            r.wf(),
            r.voltage_select == 0,
            r.swclk == 0,
            r.swd == 0,
            forall|i: int| 0 <= i < 30 ==> r.gpio@[i] == 0,
    {
        let mut gpio: Vec<u32> = Vec::new();
        let mut i: usize = 0;
        while i < 30
            invariant
                i <= 30,
                gpio@.len() == i,
                forall|j: int| 0 <= j < i ==> gpio@[j] == 0,
            decreases 30 - i,
        {
            gpio.push(0);
            i = i + 1;
        }
        PadsBank0Hw { voltage_select: 0, gpio, swclk: 0, swd: 0 }
    }

    /// Store to one pin's pad control word.
    pub fn set_pad(&mut self, pin: usize, v: u32)
        requires
            old(self).wf(),
            pin < 30,
        ensures
            final(self).wf(),
            final(self).gpio@ == old(self).gpio@.update(pin as int, v),
            final(self).voltage_select == old(self).voltage_select,
            final(self).swclk == old(self).swclk,
            final(self).swd == old(self).swd,
    {
        self.gpio.set(pin, v);
    }
}

/// Reset controller: which peripherals are held in reset, and which have
/// come out of it.
pub struct ResetsHw {
    /// One bit per peripheral; a set bit holds that peripheral in reset.
    pub reset: u32,
    /// One bit per peripheral; a set bit says its reset has completed.
    pub reset_done: u32,
}

impl ResetsHw {
    /// Power-on state: every peripheral held in reset, none done.
    pub fn new() -> (r: ResetsHw)
        ensures
            r.reset == 0x01ffffff,
            r.reset_done == 0,
    {
        ResetsHw { reset: 0x01ffffff, reset_done: 0 }
    }

    /// Clears reset bits, releasing those peripherals; the model completes
    /// the release at once, so their done bits come up with the same store.
    pub fn clear_reset(&mut self, mask: u32)
        ensures
            final(self).reset == old(self).reset & !mask,
            final(self).reset_done == old(self).reset_done | mask,
    {
        self.reset = self.reset & !mask;
        self.reset_done = self.reset_done | mask;
    }

    /// The poll loop that spins until the done bits in `mask` read as set;
    /// callers release the peripheral first, so the loop provably exits.
    pub fn wait_reset_done(&self, mask: u32)
        requires
            self.reset_done & mask == mask,
            mask != 0,
    {
        while (self.reset_done & mask) == 0
            invariant
                self.reset_done & mask == mask,
                mask != 0,
            decreases 0int,
        {
        }
    }
}

/// The one interrupt-controller register the firmware touches: the
/// set-enable word for the 32 peripheral interrupt lines.
pub struct NvicHw {
    /// One bit per interrupt line; writing ones enables lines.
    pub iser: u32,
}

impl NvicHw {
    /// Reset state: every line disabled.
    pub fn new() -> (r: NvicHw)
        ensures
            r.iser == 0,
    {
        NvicHw { iser: 0 }
    }

    /// Store to the set-enable register: write-1-to-set, so the lines in
    /// `mask` come up and no line goes down.
    pub fn enable_irq(&mut self, mask: u32)
        ensures
            final(self).iser == old(self).iser | mask,
    {
        self.iser = self.iser | mask;
    }
}

/// Serial-flash controller. Its configuration fields may be written only
/// while the controller is disabled; violating that yields undefined read
/// behaviour from flash, so the write methods demand it.
pub struct SsiHw {
    /// Enable register; nonzero enables the controller.
    pub ssienr: u32,
    /// Clock divider.
    pub baudr: u32,
    /// Frame-format control.
    pub ctrlr0: u32,
    /// Read-command opcode and addressing control.
    pub spi_ctrlr0: u32,
}

impl SsiHw {
    /// Whether the controller is enabled.
    pub open spec fn enabled(self) -> bool {
        self.ssienr != 0
    }

    /// State as the boot ROM leaves it: enabled, with its own configuration
    /// still in the registers.
    pub fn new(baudr: u32, ctrlr0: u32, spi_ctrlr0: u32) -> (r: SsiHw)
        ensures
            r.ssienr == 1,
            r.baudr == baudr,
            r.ctrlr0 == ctrlr0,
            r.spi_ctrlr0 == spi_ctrlr0,
    {
        SsiHw { ssienr: 1, baudr, ctrlr0, spi_ctrlr0 }
    }

    /// Store to the enable register.
    pub fn write_ssienr(&mut self, v: u32)
        ensures
            final(self).ssienr == v,
            final(self).baudr == old(self).baudr,
            final(self).ctrlr0 == old(self).ctrlr0,
            final(self).spi_ctrlr0 == old(self).spi_ctrlr0,
    {
        self.ssienr = v;
    }

    /// Store to the clock divider; only lawful while disabled.
    pub fn write_baudr(&mut self, v: u32)
        requires
            !old(self).enabled(),
        ensures
            final(self).baudr == v,
            final(self).ssienr == old(self).ssienr,
            final(self).ctrlr0 == old(self).ctrlr0,
            final(self).spi_ctrlr0 == old(self).spi_ctrlr0,
    {
        self.baudr = v;
    }

    /// Store to the frame-format control; only lawful while disabled.
    pub fn write_ctrlr0(&mut self, v: u32)
        requires
            !old(self).enabled(),
        ensures
            final(self).ctrlr0 == v,
            final(self).ssienr == old(self).ssienr,
            final(self).baudr == old(self).baudr,
            final(self).spi_ctrlr0 == old(self).spi_ctrlr0,
    {
        self.ctrlr0 = v;
    }

    /// Store to the read-command control; only lawful while disabled.
    pub fn write_spi_ctrlr0(&mut self, v: u32)
        requires
            !old(self).enabled(),
        ensures
            final(self).spi_ctrlr0 == v,
            final(self).ssienr == old(self).ssienr,
            final(self).baudr == old(self).baudr,
            final(self).ctrlr0 == old(self).ctrlr0,
    {
        self.spi_ctrlr0 = v;
    }
}

} // verus!
