use morser::boot_stage2::bootStage2;
use morser::control::Divergence;
use morser::regs::SsiHw;

fn flash_with_table(stack_pointer: u32, reset_handler: u32) -> Vec<u32> {
    let mut flash = vec![0u32; 70];
    flash[64] = stack_pointer;
    flash[65] = reset_handler;
    flash
}

#[test]
fn boot_stage2_configures_flash_controller() {
    let mut ssi = SsiHw::new(0, 0, 0);
    let mut vtor: u32 = 0;
    let flash = flash_with_table(0x2004_2000, 0x1000_0200);
    let _ = bootStage2(&mut ssi, &mut vtor, &flash);
    assert_eq!(ssi.ssienr, 1);
    assert_eq!(ssi.baudr, 4);
    assert_eq!(ssi.ctrlr0, (3 << 8) | (31 << 16));
    assert_eq!(ssi.spi_ctrlr0, (6 << 2) | (2 << 8) | (0x03 << 24));
    assert_eq!(vtor, 0x1000_0100);
}

#[test]
fn boot_stage2_valid_handoff_jumps() {
    let mut ssi = SsiHw::new(0, 0, 0);
    let mut vtor: u32 = 0;
    let flash = flash_with_table(0x2004_2000, 0x1000_0200);
    let d = bootStage2(&mut ssi, &mut vtor, &flash);
    assert_eq!(
        d,
        Divergence::Jump { addr: 0x1000_0200, stack_pointer: 0x2004_2000 }
    );
}

#[test]
fn boot_stage2_invalid_handoff_halts() {
    let mut ssi = SsiHw::new(0, 0, 0);
    let mut vtor: u32 = 0;
    let flash = flash_with_table(0x2004_2000, 0x0000_0123);
    let d = bootStage2(&mut ssi, &mut vtor, &flash);
    assert_eq!(d, Divergence::Halt);
}

#[test]
fn boot_stage2_window_bounds() {
    let mut ssi = SsiHw::new(0, 0, 0);
    let mut vtor: u32 = 0;
    // First byte of the window is a valid target.
    let flash = flash_with_table(0x2004_2000, 0x1000_0000);
    let d = bootStage2(&mut ssi, &mut vtor, &flash);
    assert_eq!(
        d,
        Divergence::Jump { addr: 0x1000_0000, stack_pointer: 0x2004_2000 }
    );
    // One past the window is not.
    let flash = flash_with_table(0x2004_2000, 0x1100_0000);
    let d = bootStage2(&mut ssi, &mut vtor, &flash);
    assert_eq!(d, Divergence::Halt);
}
