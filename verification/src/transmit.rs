//! The application behaviour: configure three GPIO pins (button input with
//! pull-up, LED and speaker outputs), arm a rising-edge interrupt on the
//! button, run a visible startup self-test, then idle; on each interrupt,
//! pulse both outputs for a fixed duration and clear the button's status
//! field.

use vstd::prelude::*;

use crate::control::Divergence;
use crate::regs::GpioCtrl;
use crate::regs::IoBank0Hw;
use crate::regs::NvicHw;
use crate::regs::PadsBank0Hw;
use crate::regs::ResetsHw;
use crate::regs::SioHw;

verus! {

/// Push-button input pin.
pub const BUTTON_PIN: u32 = 16;

/// Speaker output pin.
pub const SPEAKER_PIN: u32 = 21;

/// On-board LED output pin.
pub const LED_PIN: u32 = 25;

/// Function-select value that hands a pin to the SIO block.
pub const GPIO_FUNC_SIO: u32 = 5;

/// Rising-edge bit within a pin's 4-bit interrupt field.
pub const GPIO_INT_EDGE_HIGH: u32 = 0x8;

/// Interrupt line of IO bank 0 in the interrupt controller.
pub const IO_BANK0_IRQ: u32 = 13;

/// Bit of IO bank 0 in the reset controller.
pub const RESETS_IO_BANK0: u32 = 5;

/// Output mask covering both actuator pins.
pub const OUT_MASK: u32 = (1u32 << LED_PIN) | (1u32 << SPEAKER_PIN);

/// Output mask covering the LED alone.
pub const LED_MASK: u32 = 1u32 << LED_PIN;

/// The interrupt-status word that carries the button pin's field.
pub open spec fn button_word() -> int {
    BUTTON_PIN as int / 8
}

/// Bit position of the button pin's 4-bit field within its status word.
pub open spec fn button_field_shift() -> u32 {
    (4 * (BUTTON_PIN % 8)) as u32
}

/// The button pin's whole 4-bit field.
pub open spec fn button_field_mask() -> u32 {
    0xFu32 << button_field_shift()
}

/// The rising-edge status bit of the button pin.
pub open spec fn button_edge_mask() -> u32 {
    GPIO_INT_EDGE_HIGH << button_field_shift()
}

/// The SIO block in its power-on state. On the part this is a fixed physical
/// address; here it is where the model of the block begins.
pub fn sio() -> (r: SioHw)
    ensures
        r.gpio_out == 0,
        r.gpio_oe == 0,
        r.out_history@ == Seq::<u32>::empty(),
{
    SioHw::new()
}

/// IO bank 0 in its power-on state, at its fixed physical address on the part.
pub fn io() -> (r: IoBank0Hw)
    ensures
        r.wf(),
        forall|i: int| 0 <= i < 30 ==> r.gpio@[i] == (GpioCtrl { status: 0, ctrl: 0 }),
        forall|i: int| 0 <= i < 4 ==> r.intr@[i] == 0,
        forall|i: int| 0 <= i < 4 ==> r.proc0_inte@[i] == 0,
        forall|i: int| 0 <= i < 4 ==> r.proc0_intf@[i] == 0,
        forall|i: int| 0 <= i < 4 ==> r.proc0_ints@[i] == 0,
{
    IoBank0Hw::new()
}

/// The pad bank in its power-on state, at its fixed physical address on the part.
pub fn pads() -> (r: PadsBank0Hw)
    ensures
        r.wf(),
        forall|i: int| 0 <= i < 30 ==> r.gpio@[i] == 0,
{
    PadsBank0Hw::new()
}

/// Everything of the part that the application stage touches.
pub struct Machine {
    /// Single-cycle IO block: output levels and enables.
    pub sio: SioHw,
    /// IO bank 0: pin functions and edge interrupts.
    pub io: IoBank0Hw,
    /// Pad control bank.
    pub pads: PadsBank0Hw,
    /// Reset controller.
    pub resets: ResetsHw,
    /// Interrupt controller's set-enable register.
    pub nvic: NvicHw,
}

impl Machine {
    /// The register blocks are well formed.
    pub open spec fn wf(self) -> bool {
        &&& self.io.wf()
        &&& self.pads.wf()
    }

    /// The whole machine in its power-on state.
    pub fn new() -> (r: Machine)
        ensures
            r.wf(),
            r.sio.gpio_out == 0,
            r.sio.gpio_oe == 0,
            r.sio.out_history@ == Seq::<u32>::empty(),
            forall|i: int| 0 <= i < 30 ==> r.io.gpio@[i] == (GpioCtrl { status: 0, ctrl: 0 }),
            forall|i: int| 0 <= i < 4 ==> r.io.intr@[i] == 0,
            forall|i: int| 0 <= i < 4 ==> r.io.proc0_inte@[i] == 0,
            forall|i: int| 0 <= i < 4 ==> r.io.proc0_intf@[i] == 0,
            forall|i: int| 0 <= i < 4 ==> r.io.proc0_ints@[i] == 0,
            forall|i: int| 0 <= i < 30 ==> r.pads.gpio@[i] == 0,
            r.resets.reset == 0x01ffffff,
            r.resets.reset_done == 0,
            r.nvic.iser == 0,
    {
        Machine {
            sio: sio(),
            io: io(),
            pads: pads(),
            resets: ResetsHw::new(),
            nvic: NvicHw::new(),
        }
    }
}

/// Busy-wait of a fixed iteration count: the approximate, clock-relative
/// delay between driving the outputs high and low. Changes nothing.
pub fn delay(count: u32) {
    let mut i: u32 = 0;
    while i < count
        invariant
            i <= count,
        decreases count - i,
    {
        i = i + 1;
    }
}

/// The two waveform samples of one fixed-duration pulse of the pins in
/// `mask`, starting from output state `out`: high together, then low together.
pub open spec fn pulse_trace(out: u32, mask: u32) -> Seq<u32> {
    seq![out | mask, (out | mask) & !mask]
}

/// Output state after `n` pulses of `mask` starting from `out`.
pub open spec fn pulses_end(out: u32, mask: u32, n: nat) -> u32
    decreases n,
{
    if n == 0 {
        out
    } else {
        (pulses_end(out, mask, (n - 1) as nat) | mask) & !mask
    }
}

/// Waveform of `n` pulses of `mask` starting from `out`.
pub open spec fn pulses(out: u32, mask: u32, n: nat) -> Seq<u32>
    decreases n,
{
    if n == 0 {
        Seq::empty()
    } else {
        pulses(out, mask, (n - 1) as nat) + pulse_trace(
            pulses_end(out, mask, (n - 1) as nat),
            mask,
        )
    }
}

/// Waveform of the startup self-test from output state `out`: three pulses
/// of both actuator pins, then one pulse of the LED alone.
pub open spec fn selftest_trace(out: u32) -> Seq<u32> {
    pulses(out, OUT_MASK, 3) + pulse_trace(pulses_end(out, OUT_MASK, 3), LED_MASK)
}

/// Output state once the self-test is over.
pub open spec fn selftest_end(out: u32) -> u32 {
    (pulses_end(out, OUT_MASK, 3) | LED_MASK) & !LED_MASK
}

/// The startup self-test: the operator's proof of life. Pulses both
/// actuator pins three times, then the LED alone once; touches nothing but
/// the output register — in particular no interrupt status.
pub fn startup_self_test(m: &mut Machine)
    ensures
        final(m).sio.out_history@ == old(m).sio.out_history@ + selftest_trace(
            old(m).sio.gpio_out,
        ),
        final(m).sio.gpio_out == selftest_end(old(m).sio.gpio_out),
        final(m).sio.gpio_oe == old(m).sio.gpio_oe,
        final(m).io == old(m).io,
        final(m).pads == old(m).pads,
        final(m).resets == old(m).resets,
        final(m).nvic == old(m).nvic,
{
    let ghost m0 = *m;
    let ghost out0 = m.sio.gpio_out;
    let ghost hist0 = m.sio.out_history@;
    let mut k: u32 = 0;
    while k < 3
        invariant
            k <= 3,
            m.sio.gpio_out == pulses_end(out0, OUT_MASK, k as nat),
            m.sio.out_history@ == hist0 + pulses(out0, OUT_MASK, k as nat),
            m.sio.gpio_oe == m0.sio.gpio_oe,
            m.io == m0.io,
            m.pads == m0.pads,
            m.resets == m0.resets,
            m.nvic == m0.nvic,
        decreases 3 - k,
    {
        m.sio.gpio_out_set(OUT_MASK);
        delay(100000);
        m.sio.gpio_out_clr(OUT_MASK);
        k = k + 1;
        proof {
            assert(m.sio.out_history@ =~= hist0 + pulses(out0, OUT_MASK, k as nat));
        }
    }
    m.sio.gpio_out_set(LED_MASK);
    delay(500000);
    m.sio.gpio_out_clr(LED_MASK);
    proof {
        assert(m.sio.out_history@ =~= hist0 + selftest_trace(out0));
    }
}

/// Whether bit `b` of `word` is set; for output words, whether pin `b` is
/// driven high.
pub open spec fn bit_set(word: u32, b: u32) -> bool {
    word & (1u32 << b) != 0
}

/// Bit-level reading of one pulse of both actuator pins from output state
/// `x`: both high in the first sample, both low in the second, and no other
/// pin's level moves in either.
proof fn lemma_actuator_pulse_bits(x: u32)
    ensures
        bit_set(x | OUT_MASK, LED_PIN),
        bit_set(x | OUT_MASK, SPEAKER_PIN),
        !bit_set((x | OUT_MASK) & !OUT_MASK, LED_PIN),
        !bit_set((x | OUT_MASK) & !OUT_MASK, SPEAKER_PIN),
        forall|p: u32|
            p < 32 && p != LED_PIN && p != SPEAKER_PIN ==> bit_set(x | OUT_MASK, p) == bit_set(
                x,
                p,
            ) && bit_set((x | OUT_MASK) & !OUT_MASK, p) == bit_set(x, p),
{
    assert(bit_set(x | OUT_MASK, LED_PIN)) by (bit_vector);
    assert(bit_set(x | OUT_MASK, SPEAKER_PIN)) by (bit_vector);
    assert(!bit_set((x | OUT_MASK) & !OUT_MASK, LED_PIN)) by (bit_vector);
    assert(!bit_set((x | OUT_MASK) & !OUT_MASK, SPEAKER_PIN)) by (bit_vector);
    assert(forall|p: u32|
        p < 32 && p != LED_PIN && p != SPEAKER_PIN ==> bit_set(x | OUT_MASK, p) == bit_set(x, p)
            && bit_set((x | OUT_MASK) & !OUT_MASK, p) == bit_set(x, p)) by (bit_vector);
}

/// Bit-level reading of one pulse of the LED alone from output state `x`.
proof fn lemma_led_pulse_bits(x: u32)
    ensures
        bit_set(x | LED_MASK, LED_PIN),
        !bit_set((x | LED_MASK) & !LED_MASK, LED_PIN),
        forall|p: u32|
            p < 32 && p != LED_PIN ==> bit_set(x | LED_MASK, p) == bit_set(x, p) && bit_set(
                (x | LED_MASK) & !LED_MASK,
                p,
            ) == bit_set(x, p),
{
    assert(bit_set(x | LED_MASK, LED_PIN)) by (bit_vector);
    assert(!bit_set((x | LED_MASK) & !LED_MASK, LED_PIN)) by (bit_vector);
    assert(forall|p: u32|
        p < 32 && p != LED_PIN ==> bit_set(x | LED_MASK, p) == bit_set(x, p) && bit_set(
            (x | LED_MASK) & !LED_MASK,
            p,
        ) == bit_set(x, p)) by (bit_vector);
}

/// Law: the startup self-test waveform is exactly eight samples — three
/// high/low pulses on both actuator pins followed by one high/low pulse on
/// the LED alone — and no other pin's output level moves at any sample.
pub proof fn lemma_selftest_waveform(out: u32)
    ensures
        selftest_trace(out).len() == 8,
        forall|k: int|
            0 <= k < 8 ==> (bit_set(#[trigger] selftest_trace(out)[k], LED_PIN) <==> (k == 0 || k
                == 2 || k == 4 || k == 6)),
        forall|k: int|
            0 <= k < 8 ==> (bit_set(#[trigger] selftest_trace(out)[k], SPEAKER_PIN) <==> (k == 0
                || k == 2 || k == 4)),
        forall|p: u32, k: int|
            p < 32 && p != LED_PIN && p != SPEAKER_PIN && 0 <= k < 8 ==> #[trigger] bit_set(
                selftest_trace(out)[k],
                p,
            ) == bit_set(out, p),
{
    let e1 = (out | OUT_MASK) & !OUT_MASK;
    let e2 = (e1 | OUT_MASK) & !OUT_MASK;
    let e3 = (e2 | OUT_MASK) & !OUT_MASK;
    assert(pulses_end(out, OUT_MASK, 0) == out);
    assert(pulses_end(out, OUT_MASK, 1) == e1);
    assert(pulses_end(out, OUT_MASK, 2) == e2);
    assert(pulses_end(out, OUT_MASK, 3) == e3);
    assert(pulses(out, OUT_MASK, 0) == Seq::<u32>::empty());
    assert(pulses(out, OUT_MASK, 1) =~= seq![out | OUT_MASK, e1]);
    assert(pulses(out, OUT_MASK, 2) =~= seq![out | OUT_MASK, e1, e1 | OUT_MASK, e2]);
    assert(pulses(out, OUT_MASK, 3) =~= seq![
        out | OUT_MASK,
        e1,
        e1 | OUT_MASK,
        e2,
        e2 | OUT_MASK,
        e3,
    ]);
    assert(selftest_trace(out) =~= seq![
        out | OUT_MASK,
        e1,
        e1 | OUT_MASK,
        e2,
        e2 | OUT_MASK,
        e3,
        e3 | LED_MASK,
        (e3 | LED_MASK) & !LED_MASK,
    ]);
    lemma_actuator_pulse_bits(out);
    lemma_actuator_pulse_bits(e1);
    lemma_actuator_pulse_bits(e2);
    lemma_led_pulse_bits(e3);
}

/// Law: with the button's edge bit pending, one invocation of the interrupt
/// routine appends exactly two waveform samples — both actuator pins high,
/// then both low — leaves every other pin's output level as it was, and
/// clears exactly the button pin's 4-bit status field: no other bit of its
/// raw word and no other status word moves.
pub proof fn lemma_handler_button_pulse(pre: Machine, post: Machine)
    requires
        pre.wf(),
        button_edge_pending(pre),
        io_irq_effect(pre, post),
    ensures
        post.sio.out_history@.len() == pre.sio.out_history@.len() + 2,
        post.sio.out_history@.take(pre.sio.out_history@.len() as int) == pre.sio.out_history@,
        bit_set(post.sio.out_history@[pre.sio.out_history@.len() as int], LED_PIN),
        bit_set(post.sio.out_history@[pre.sio.out_history@.len() as int], SPEAKER_PIN),
        !bit_set(post.sio.out_history@[pre.sio.out_history@.len() as int + 1], LED_PIN),
        !bit_set(post.sio.out_history@[pre.sio.out_history@.len() as int + 1], SPEAKER_PIN),
        !bit_set(post.sio.gpio_out, LED_PIN),
        !bit_set(post.sio.gpio_out, SPEAKER_PIN),
        forall|p: u32|
            p < 32 && p != LED_PIN && p != SPEAKER_PIN ==> bit_set(post.sio.gpio_out, p)
                == bit_set(pre.sio.gpio_out, p),
        post.io.intr@[button_word()] & button_field_mask() == 0,
        forall|b: u32|
            b < 32 && button_field_mask() & (1u32 << b) == 0 ==> bit_set(
                post.io.intr@[button_word()],
                b,
            ) == bit_set(pre.io.intr@[button_word()], b),
        forall|w: int| 0 <= w < 4 && w != button_word() ==> post.io.intr@[w] == pre.io.intr@[w],
        forall|w: int|
            0 <= w < 4 && w != button_word() ==> post.io.proc0_ints@[w] == pre.io.proc0_ints@[w],
        pre.io.proc0_intf@[button_word()] == 0 ==> post.io.proc0_ints@[button_word()]
            & button_field_mask() == 0,
{
    lemma_actuator_pulse_bits(pre.sio.gpio_out);
    assert(post.sio.out_history@.take(pre.sio.out_history@.len() as int)
        =~= pre.sio.out_history@);
    let raw = pre.io.intr@[button_word()];
    let inte = pre.io.proc0_inte@[button_word()];
    assert((raw & !button_field_mask()) & button_field_mask() == 0) by (bit_vector);
    assert(forall|b: u32|
        b < 32 && button_field_mask() & (1u32 << b) == 0 ==> bit_set(raw & !button_field_mask(), b)
            == bit_set(raw, b)) by (bit_vector);
    assert(((raw & !button_field_mask()) & inte) | 0u32 == (raw & !button_field_mask()) & inte)
        by (bit_vector);
    assert(((raw & !button_field_mask()) & inte) & button_field_mask() == 0) by (bit_vector);
}

/// Whether the interrupt-status word that covers the button pin shows its
/// rising-edge bit set.
pub open spec fn button_edge_pending(m: Machine) -> bool {
    m.io.proc0_ints@[button_word()] & button_edge_mask() != 0
}

/// What one invocation of the GPIO-bank interrupt routine does. With the
/// button's edge bit pending: one fixed-duration pulse of both actuator
/// pins, then a write-1-to-clear of the button's whole 4-bit field, whose
/// masked status follows; nothing else moves. Without it: nothing at all.
pub open spec fn io_irq_effect(pre: Machine, post: Machine) -> bool {
    if button_edge_pending(pre) {
        &&& post.sio.gpio_out == (pre.sio.gpio_out | OUT_MASK) & !OUT_MASK
        &&& post.sio.gpio_oe == pre.sio.gpio_oe
        &&& post.sio.out_history@ == pre.sio.out_history@ + pulse_trace(
            pre.sio.gpio_out,
            OUT_MASK,
        )
        &&& post.io.gpio@ == pre.io.gpio@
        &&& post.io.intr@ == pre.io.intr@.update(
            button_word(),
            pre.io.intr@[button_word()] & !button_field_mask(),
        )
        &&& post.io.proc0_inte@ == pre.io.proc0_inte@
        &&& post.io.proc0_intf@ == pre.io.proc0_intf@
        &&& post.io.proc0_ints@ == pre.io.proc0_ints@.update(
            button_word(),
            ((pre.io.intr@[button_word()] & !button_field_mask())
                & pre.io.proc0_inte@[button_word()]) | pre.io.proc0_intf@[button_word()],
        )
        &&& post.pads == pre.pads
        &&& post.resets == pre.resets
        &&& post.nvic == pre.nvic
    } else {
        post == pre
    }
}

/// The GPIO-bank interrupt routine. Reads the masked status word covering
/// the button pin; if the rising-edge bit is not set the entry was for some
/// other cause and nothing is touched; if it is set, both actuator pins are
/// pulsed for the fixed duration and the button's status field is cleared by
/// writing its full 4-bit mask back, write-1-to-clear.
///
/// Reading a pin's interrupt-status bits is undefined until the pin's
/// function is selected, so the button pin must already be on the SIO
/// function; the application entry point establishes that before it enables
/// the interrupt.
#[allow(non_snake_case)]
pub fn ioIrqBank0(m: &mut Machine)
    requires
        old(m).wf(),
        old(m).io.gpio@[BUTTON_PIN as int].ctrl == GPIO_FUNC_SIO,
    ensures
        final(m).wf(),
        io_irq_effect(*old(m), *final(m)),
{
    let pin_index = (BUTTON_PIN / 8) as usize;
    let pin_offset = 4 * (BUTTON_PIN % 8);
    let status = m.io.read_proc0_ints(pin_index);
    if status & (GPIO_INT_EDGE_HIGH << pin_offset) != 0 {
        m.sio.gpio_out_set(OUT_MASK);
        delay(100000);
        m.sio.gpio_out_clr(OUT_MASK);
        m.io.write_intr(pin_index, 0xFu32 << pin_offset);
        proof {
            assert(m.sio.out_history@ =~= old(m).sio.out_history@ + pulse_trace(
                old(m).sio.gpio_out,
                OUT_MASK,
            ));
        }
    }
}

/// The application entry point, run once by the startup routine's handoff.
/// Releases IO bank 0 from reset, selects the SIO function for the three
/// pins, makes the button an input with pull-up and input buffer and the two
/// actuators outputs, clears any stale interrupt status, arms the rising
/// edge on the button, enables the bank's line in the interrupt controller,
/// runs the self-test, and settles into the idle wait.
#[allow(non_snake_case)]
pub fn main(m: &mut Machine) -> (d: Divergence)
    requires
        old(m).wf(),
    ensures
        final(m).wf(),
        d == Divergence::Idle,
        final(m).resets.reset == old(m).resets.reset & !(1u32 << RESETS_IO_BANK0),
        final(m).resets.reset_done == old(m).resets.reset_done | (1u32 << RESETS_IO_BANK0),
        final(m).io.gpio@ == old(m).io.gpio@.update(
            BUTTON_PIN as int,
            (GpioCtrl {
                status: old(m).io.gpio@[BUTTON_PIN as int].status,
                ctrl: GPIO_FUNC_SIO,
            }),
        ).update(
            LED_PIN as int,
            (GpioCtrl { status: old(m).io.gpio@[LED_PIN as int].status, ctrl: GPIO_FUNC_SIO }),
        ).update(
            SPEAKER_PIN as int,
            (GpioCtrl {
                status: old(m).io.gpio@[SPEAKER_PIN as int].status,
                ctrl: GPIO_FUNC_SIO,
            }),
        ),
        final(m).sio.gpio_oe == ((old(m).sio.gpio_oe & !(1u32 << BUTTON_PIN)) | (1u32
            << LED_PIN)) | (1u32 << SPEAKER_PIN),
        final(m).pads.gpio@ == old(m).pads.gpio@.update(
            BUTTON_PIN as int,
            (1u32 << 3) | (1u32 << 6),
        ),
        final(m).io.intr@ == old(m).io.intr@.update(
            button_word(),
            old(m).io.intr@[button_word()] & !button_field_mask(),
        ),
        final(m).io.proc0_inte@ == old(m).io.proc0_inte@.update(
            button_word(),
            old(m).io.proc0_inte@[button_word()] | button_edge_mask(),
        ),
        final(m).io.proc0_intf@ == old(m).io.proc0_intf@,
        final(m).io.proc0_ints@ == old(m).io.proc0_ints@.update(
            button_word(),
            ((old(m).io.intr@[button_word()] & !button_field_mask())
                & (old(m).io.proc0_inte@[button_word()] | button_edge_mask()))
                | old(m).io.proc0_intf@[button_word()],
        ),
        final(m).nvic.iser == old(m).nvic.iser | (1u32 << IO_BANK0_IRQ),
        final(m).sio.out_history@ == old(m).sio.out_history@ + selftest_trace(
            old(m).sio.gpio_out,
        ),
        final(m).sio.gpio_out == selftest_end(old(m).sio.gpio_out),
{
    m.resets.clear_reset(1u32 << RESETS_IO_BANK0);
    proof {
        assert forall|d0: u32| (d0 | (1u32 << 5)) & (1u32 << 5) == (1u32 << 5) by {
            assert((d0 | (1u32 << 5)) & (1u32 << 5) == (1u32 << 5)) by (bit_vector);
        }
        assert(1u32 << 5 != 0) by (bit_vector);
    }
    m.resets.wait_reset_done(1u32 << RESETS_IO_BANK0);

    m.io.set_gpio_ctrl(BUTTON_PIN as usize, GPIO_FUNC_SIO);
    m.sio.gpio_oe_clr(1u32 << BUTTON_PIN);
    m.pads.set_pad(BUTTON_PIN as usize, (1u32 << 3) | (1u32 << 6));

    m.io.set_gpio_ctrl(LED_PIN as usize, GPIO_FUNC_SIO);
    m.sio.gpio_oe_set(1u32 << LED_PIN);

    m.io.set_gpio_ctrl(SPEAKER_PIN as usize, GPIO_FUNC_SIO);
    m.sio.gpio_oe_set(1u32 << SPEAKER_PIN);

    let pin_index = (BUTTON_PIN / 8) as usize;
    let pin_offset = 4 * (BUTTON_PIN % 8);
    m.io.write_intr(pin_index, 0xFu32 << pin_offset);
    m.io.enable_proc0_inte(pin_index, GPIO_INT_EDGE_HIGH << pin_offset);
    m.nvic.enable_irq(1u32 << IO_BANK0_IRQ);

    startup_self_test(m);

    proof {
        assert(m.io.gpio@ =~= old(m).io.gpio@.update(
            BUTTON_PIN as int,
            (GpioCtrl {
                status: old(m).io.gpio@[BUTTON_PIN as int].status,
                ctrl: GPIO_FUNC_SIO,
            }),
        ).update(
            LED_PIN as int,
            (GpioCtrl { status: old(m).io.gpio@[LED_PIN as int].status, ctrl: GPIO_FUNC_SIO }),
        ).update(
            SPEAKER_PIN as int,
            (GpioCtrl {
                status: old(m).io.gpio@[SPEAKER_PIN as int].status,
                ctrl: GPIO_FUNC_SIO,
            }),
        ));
        assert(m.io.proc0_ints@ =~= old(m).io.proc0_ints@.update(
            button_word(),
            ((old(m).io.intr@[button_word()] & !button_field_mask())
                & (old(m).io.proc0_inte@[button_word()] | button_edge_mask()))
                | old(m).io.proc0_intf@[button_word()],
        ));
    }
    Divergence::Idle
}

} // verus!
