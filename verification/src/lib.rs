//! Power-on-to-running firmware chain for a Cortex-M0+ part that boots from
//! QSPI flash, modelled as verified state machines over typed register blocks:
//! a second-stage boot routine, a runtime startup routine that establishes the
//! C-style memory image and the vector table, and an edge-triggered GPIO
//! interrupt handler (button press pulses two actuator outputs).

pub mod boot_image;
pub mod boot_stage2;
pub mod control;
pub mod regs;
pub mod startup;
pub mod transmit;
