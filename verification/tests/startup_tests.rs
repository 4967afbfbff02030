use morser::control::Divergence;
use morser::startup::defaultHandler;
use morser::startup::hardFaultHandler;
use morser::startup::nmiHandler;
use morser::startup::pendSvHandler;
use morser::startup::resetHandler;
use morser::startup::svCallHandler;
use morser::startup::sysTickHandler;
use morser::startup::vector_table;
use morser::startup::HandlerKind;
use morser::startup::MemLayout;
use morser::startup::VectorTableEntry;

#[test]
fn reset_handler_establishes_memory_image() {
    let layout = MemLayout { etext: 2, sdata: 1, edata: 4, sbss: 5, ebss: 8 };
    let mut flash = vec![0u32; 6];
    flash[2] = 11;
    flash[3] = 22;
    flash[4] = 33;
    let mut ram = vec![0xAAAA_AAAAu32; 10];
    let mut vtor: u32 = 0;
    let d = resetHandler(&layout, &flash, &mut ram, &mut vtor);
    // Initialized data copied word for word.
    assert_eq!(&ram[1..4], &[11, 22, 33]);
    // Uninitialized region zeroed.
    assert_eq!(&ram[5..8], &[0, 0, 0]);
    // Everything outside the two regions untouched.
    assert_eq!(ram[0], 0xAAAA_AAAA);
    assert_eq!(ram[4], 0xAAAA_AAAA);
    assert_eq!(ram[8], 0xAAAA_AAAA);
    assert_eq!(ram[9], 0xAAAA_AAAA);
    // Vector-table-offset register points at the application table.
    assert_eq!(vtor, 0x1000_0100);
    assert_eq!(d, Divergence::EnterMain);
}

#[test]
fn reset_handler_empty_regions() {
    let layout = MemLayout { etext: 0, sdata: 3, edata: 3, sbss: 3, ebss: 3 };
    let flash = vec![7u32; 4];
    let mut ram = vec![9u32; 4];
    let mut vtor: u32 = 0;
    let d = resetHandler(&layout, &flash, &mut ram, &mut vtor);
    assert_eq!(ram, vec![9, 9, 9, 9]);
    assert_eq!(d, Divergence::EnterMain);
}

#[test]
fn vector_table_has_48_entries_with_fixed_layout() {
    let t = vector_table(0x2004_2000);
    assert_eq!(t.len(), 48);
    assert_eq!(t[0], VectorTableEntry::StackPointer(0x2004_2000));
    assert_eq!(t[1], VectorTableEntry::Handler(HandlerKind::Reset));
    assert_eq!(t[2], VectorTableEntry::Handler(HandlerKind::Nmi));
    assert_eq!(t[3], VectorTableEntry::Handler(HandlerKind::HardFault));
    for i in [4usize, 5, 6, 12] {
        assert_eq!(t[i], VectorTableEntry::Handler(HandlerKind::Default));
    }
    for i in [7usize, 8, 9, 10, 13] {
        assert_eq!(t[i], VectorTableEntry::Reserved);
    }
    assert_eq!(t[11], VectorTableEntry::Handler(HandlerKind::SvCall));
    assert_eq!(t[14], VectorTableEntry::Handler(HandlerKind::PendSv));
    assert_eq!(t[15], VectorTableEntry::Handler(HandlerKind::SysTick));
    // Peripheral lines: all fail-stop but line 13, the GPIO bank.
    for i in 16..48 {
        if i == 29 {
            assert_eq!(t[i], VectorTableEntry::Handler(HandlerKind::IoIrqBank0));
        } else {
            assert_eq!(t[i], VectorTableEntry::Handler(HandlerKind::Default));
        }
    }
}

#[test]
fn unconfigured_handlers_fail_stop() {
    assert_eq!(defaultHandler(), Divergence::Halt);
    assert_eq!(nmiHandler(), Divergence::Halt);
    assert_eq!(hardFaultHandler(), Divergence::Halt);
    assert_eq!(svCallHandler(), Divergence::Halt);
    assert_eq!(pendSvHandler(), Divergence::Halt);
    assert_eq!(sysTickHandler(), Divergence::Halt);
}
