use rax::backend::hvf::arm64::{
    decode_data_abort, exit_action, mmio_read_value, mmio_write_data, psci_call, sysreg_trap,
    DataAbort, ExitAction, ExitReason, PsciOutcome, PSCI_DENIED, PSCI_NOT_SUPPORTED,
};

const IL: u64 = 1 << 25;
const ISV: u64 = 1 << 24;

fn syndrome(ec: u64, iss: u64) -> u64 {
    (ec << 26) | IL | iss
}

#[test]
fn exits_map_to_run_loop_actions() {
    assert_eq!(exit_action(ExitReason::Canceled, 0), ExitAction::Yield);
    assert_eq!(exit_action(ExitReason::VtimerActivated, 0), ExitAction::PendVtimer);
    assert_eq!(exit_action(ExitReason::Unknown, 0), ExitAction::Unknown);
    assert_eq!(
        exit_action(ExitReason::Exception, 0x01 << 26),
        ExitAction::WaitForInterrupt { insn_len: 2 }
    );
    assert_eq!(
        exit_action(ExitReason::Exception, syndrome(0x01, 0)),
        ExitAction::WaitForInterrupt { insn_len: 4 }
    );
    assert_eq!(exit_action(ExitReason::Exception, syndrome(0x24, 0)), ExitAction::DataAbort);
    assert_eq!(exit_action(ExitReason::Exception, syndrome(0x25, 0)), ExitAction::DataAbort);
    assert_eq!(exit_action(ExitReason::Exception, syndrome(0x20, 0)), ExitAction::InstructionAbort);
    assert_eq!(exit_action(ExitReason::Exception, syndrome(0x16, 0)), ExitAction::Psci { skip: 0 });
    assert_eq!(exit_action(ExitReason::Exception, syndrome(0x17, 0)), ExitAction::Psci { skip: 4 });
    assert_eq!(exit_action(ExitReason::Exception, syndrome(0x18, 0)), ExitAction::SysRegTrap);
    assert_eq!(exit_action(ExitReason::Exception, syndrome(0x15, 0)), ExitAction::Svc(0x15));
    assert_eq!(exit_action(ExitReason::Exception, syndrome(0x3C, 0)), ExitAction::UnhandledClass(0x3C));
}

#[test]
fn psci_calls() {
    assert_eq!(psci_call(0x8400_0000, 0), PsciOutcome::Return(0x0001_0001));
    assert_eq!(psci_call(0x8400_0006, 0), PsciOutcome::Return(2));
    assert_eq!(psci_call(0x8400_0008, 0), PsciOutcome::Shutdown);
    assert_eq!(psci_call(0x8400_0009, 0), PsciOutcome::Shutdown);
    assert_eq!(psci_call(0x8400_000A, 0x8400_0009), PsciOutcome::Return(0));
    assert_eq!(psci_call(0x8400_000A, 0xC400_0003), PsciOutcome::Return(PSCI_NOT_SUPPORTED));
    assert_eq!(psci_call(0xC400_0003, 0), PsciOutcome::Return(PSCI_DENIED));
    assert_eq!(psci_call(0x8400_0002, 0), PsciOutcome::Return(u64::MAX));
    assert_eq!(psci_call(0x1234, 0), PsciOutcome::Return(u64::MAX));
}

#[test]
fn data_abort_syndromes() {
    // STR w3, [..]: word store.
    let s = syndrome(0x24, ISV | (2 << 22) | (3 << 16) | (1 << 6));
    assert_eq!(
        decode_data_abort(s),
        Some(DataAbort {
            size: 4,
            rt: 3,
            write: true,
            sign_extend: false,
            sixty_four: false,
            insn_len: 4
        })
    );
    // LDRSB x5, [..]: sign-extending byte load into a 64-bit register.
    let s = syndrome(0x24, ISV | (1 << 21) | (5 << 16) | (1 << 15));
    assert_eq!(
        decode_data_abort(s),
        Some(DataAbort {
            size: 1,
            rt: 5,
            write: false,
            sign_extend: true,
            sixty_four: true,
            insn_len: 4
        })
    );
    assert_eq!(decode_data_abort(syndrome(0x24, (3 << 22) | (2 << 16))), None);
}

#[test]
fn mmio_store_bytes_and_load_values() {
    assert_eq!(mmio_write_data(0x1122_3344_5566_7788, 2), vec![0x88, 0x77]);
    assert_eq!(mmio_write_data(0x1122_3344_5566_7788, 8), 0x1122_3344_5566_7788u64.to_le_bytes().to_vec());
    assert_eq!(mmio_read_value(&[0x80], 1, true, true), 0xFFFF_FFFF_FFFF_FF80);
    assert_eq!(mmio_read_value(&[0x80], 1, true, false), 0xFFFF_FF80);
    assert_eq!(mmio_read_value(&[0x80], 1, false, true), 0x80);
    assert_eq!(mmio_read_value(&[0x34, 0x12, 0xFF], 2, false, true), 0x1234);
    assert_eq!(mmio_read_value(&[0x01], 4, false, false), 1);
    assert_eq!(mmio_read_value(&[0xFF; 8], 8, true, true), u64::MAX);
    assert_eq!(mmio_read_value(&[0x00, 0x00, 0x00, 0x80, 0x55], 4, true, true), 0xFFFF_FFFF_8000_0000);
}

#[test]
fn sysreg_trap_decodes_direction_and_register() {
    assert_eq!(sysreg_trap((7 << 5) | 1), (true, 7));
    assert_eq!(sysreg_trap(31 << 5), (false, 31));
}

#[test]
fn mmio_store_then_load_round_trips() {
    let v = 0x1122_3344_5566_7788u64;
    for (size, expected) in [(1u8, 0x88u64), (2, 0x7788), (4, 0x5566_7788), (8, v)] {
        let bus = mmio_write_data(v, size);
        assert_eq!(mmio_read_value(&bus, size, false, true), expected);
    }
    // PSCI_FEATURES agrees with what the calls answer.
    assert_eq!(psci_call(0x8400_000A, 0x8400_0000), PsciOutcome::Return(0));
    assert_eq!(psci_call(0x8400_000A, 0x8400_0002), PsciOutcome::Return(PSCI_NOT_SUPPORTED));
    assert_eq!(psci_call(0x8400_0002, 0), PsciOutcome::Return(PSCI_NOT_SUPPORTED));
}
