use morser::control::Divergence;
use morser::startup::ioIrqBank0Handler;
use morser::transmit::io;
use morser::transmit::ioIrqBank0;
use morser::transmit::main;
use morser::transmit::pads;
use morser::transmit::sio;
use morser::transmit::Machine;

const LED: u32 = 1 << 25;
const SPEAKER: u32 = 1 << 21;
const BOTH: u32 = LED | SPEAKER;

fn configured_machine() -> Machine {
    let mut m = Machine::new();
    let d = main(&mut m);
    assert_eq!(d, Divergence::Idle);
    m
}

#[test]
fn register_blocks_start_at_reset_state() {
    let s = sio();
    assert_eq!(s.gpio_out, 0);
    assert_eq!(s.gpio_oe, 0);
    assert!(s.out_history.is_empty());
    let b = io();
    assert_eq!(b.gpio.len(), 30);
    assert!(b.gpio.iter().all(|g| g.status == 0 && g.ctrl == 0));
    assert_eq!(b.intr, vec![0; 4]);
    assert_eq!(b.proc0_inte, vec![0; 4]);
    assert_eq!(b.proc0_intf, vec![0; 4]);
    assert_eq!(b.proc0_ints, vec![0; 4]);
    let p = pads();
    assert_eq!(p.gpio, vec![0; 30]);
}

#[test]
fn main_configures_pins_and_interrupts() {
    let m = configured_machine();
    // IO bank released from reset.
    assert_eq!(m.resets.reset, 0x01ff_ffff & !(1 << 5));
    assert_eq!(m.resets.reset_done, 1 << 5);
    // The three pins are handed to the SIO function; nothing else is.
    for pin in 0..30 {
        if pin == 16 || pin == 21 || pin == 25 {
            assert_eq!(m.io.gpio[pin].ctrl, 5);
        } else {
            assert_eq!(m.io.gpio[pin].ctrl, 0);
        }
    }
    // Button is an input, the two actuators are outputs.
    assert_eq!(m.sio.gpio_oe, BOTH);
    // Button pad: pull-up and input buffer enabled.
    assert_eq!(m.pads.gpio[16], (1 << 3) | (1 << 6));
    // Stale status cleared, rising edge armed, bank line enabled.
    assert_eq!(m.io.intr[2], 0);
    assert_eq!(m.io.proc0_inte[2], 0x8);
    assert_eq!(m.io.proc0_ints[2], 0);
    assert_eq!(m.nvic.iser, 1 << 13);
}

#[test]
fn self_test_waveform_is_three_pulses_then_led_flash() {
    let m = configured_machine();
    // Three high/low pulses of both actuators, then one LED-only pulse.
    assert_eq!(
        m.sio.out_history,
        vec![BOTH, 0, BOTH, 0, BOTH, 0, LED, 0]
    );
    // Outputs end low.
    assert_eq!(m.sio.gpio_out, 0);
}

#[test]
fn handler_pulses_and_clears_only_button_field() {
    let mut m = configured_machine();
    let before = m.sio.out_history.len();
    // Button edge latches; a stale raw edge of pin 17 sits in the same word
    // but is not enabled, so it must survive the clear untouched.
    m.io.hw_latch_edge(2, 0x8 | (0x8 << 4));
    assert_eq!(m.io.proc0_ints[2], 0x8);
    ioIrqBank0(&mut m);
    // One pulse of both actuators.
    assert_eq!(&m.sio.out_history[before..], &[BOTH, 0]);
    assert_eq!(m.sio.gpio_out, 0);
    // The button's 4-bit field is cleared; pin 17's field is not.
    assert_eq!(m.io.intr[2], 0x8 << 4);
    assert_eq!(m.io.proc0_ints[2], 0);
    // No other word moved.
    assert_eq!(m.io.intr[0], 0);
    assert_eq!(m.io.intr[1], 0);
    assert_eq!(m.io.intr[3], 0);
}

#[test]
fn handler_is_a_no_op_without_button_edge() {
    let mut m = configured_machine();
    let history_before = m.sio.out_history.clone();
    let intr_before = m.io.intr.clone();
    let ints_before = m.io.proc0_ints.clone();
    ioIrqBank0(&mut m);
    // Spurious entry: all output and status registers unchanged.
    assert_eq!(m.sio.out_history, history_before);
    assert_eq!(m.sio.gpio_out, 0);
    assert_eq!(m.sio.gpio_oe, BOTH);
    assert_eq!(m.io.intr, intr_before);
    assert_eq!(m.io.proc0_ints, ints_before);
}

#[test]
fn handler_ignores_edge_of_other_pin() {
    let mut m = configured_machine();
    let before = m.sio.out_history.len();
    // Pin 17's edge latches raw but is not enabled: the masked status stays
    // clear and the routine must not react.
    m.io.hw_latch_edge(2, 0x8 << 4);
    assert_eq!(m.io.proc0_ints[2], 0);
    ioIrqBank0(&mut m);
    assert_eq!(m.sio.out_history.len(), before);
    assert_eq!(m.io.intr[2], 0x8 << 4);
}

#[test]
fn vector_entry_for_gpio_bank_falls_through_to_fail_stop() {
    let mut m = configured_machine();
    let before = m.sio.out_history.len();
    m.io.hw_latch_edge(2, 0x8);
    let d = ioIrqBank0Handler(&mut m);
    assert_eq!(d, Divergence::Halt);
    assert_eq!(&m.sio.out_history[before..], &[BOTH, 0]);
    assert_eq!(m.io.proc0_ints[2], 0);
}
