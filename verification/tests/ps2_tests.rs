use polished_boot::logging::SerialLogger;
use polished_boot::ps2::{ps2_init_step, Ps2Op, Ps2State};

#[test]
fn test_ps2_remap_sequence() {
    let mut log = SerialLogger::new();
    let (next, ops) = ps2_init_step(Ps2State::Start, 0, &mut log);
    assert!(next == Ps2State::AwaitMasterMask);
    assert_eq!(
        ops,
        vec![
            Ps2Op::WritePort(0x20, 0x11),
            Ps2Op::WritePort(0xa0, 0x11),
            Ps2Op::WritePort(0x21, 0x20),
            Ps2Op::WritePort(0xa1, 0x28),
            Ps2Op::WritePort(0x21, 0x04),
            Ps2Op::WritePort(0xa1, 0x02),
            Ps2Op::WritePort(0x21, 0x01),
            Ps2Op::WritePort(0xa1, 0x01),
            Ps2Op::ReadPort(0x21),
        ]
    );
    assert_eq!(log.out, b"[INFO] Initializing PS/2 controller...\r\n".to_vec());
}

#[test]
fn test_ps2_unmasks_keyboard_and_cascade() {
    let mut log = SerialLogger::new();
    let (next, ops) = ps2_init_step(Ps2State::AwaitMasterMask, 0xff, &mut log);
    assert!(next == Ps2State::AwaitStaleScancode);
    assert_eq!(ops[0], Ps2Op::WritePort(0x21, 0xf9));
    assert_eq!(ops[1], Ps2Op::WritePort(0xa1, 0xff));
    assert_eq!(ops[2], Ps2Op::ReadPort(0x60));
    assert!(log.out.is_empty());
}

#[test]
fn test_ps2_config_byte_rewrite() {
    let mut log = SerialLogger::new();
    let (next, ops) = ps2_init_step(Ps2State::AwaitConfig, 0x02, &mut log);
    assert!(next == Ps2State::AwaitResetAck);
    // Keyboard interrupt on, mouse interrupt off, translation bit set.
    assert_eq!(ops[3], Ps2Op::WritePort(0x60, 0x41));
    // The step ends by resetting the keyboard and waiting for its answer.
    assert_eq!(ops[7], Ps2Op::WritePort(0x60, 0xff));
    assert_eq!(ops[9], Ps2Op::ReadPort(0x60));
}

#[test]
fn test_ps2_reset_ack_branches() {
    let mut log = SerialLogger::new();
    let (next, ops) = ps2_init_step(Ps2State::AwaitResetAck, 0xfa, &mut log);
    assert!(next == Ps2State::AwaitBat);
    assert_eq!(ops, vec![Ps2Op::WaitOutputSet, Ps2Op::ReadPort(0x60)]);
    assert_eq!(log.out, b"[INFO] Keyboard RESET ACK: 0xfa\r\n".to_vec());

    let mut log2 = SerialLogger::new();
    let (next2, ops2) = ps2_init_step(Ps2State::AwaitResetAck, 0xfe, &mut log2);
    assert!(next2 == Ps2State::AwaitScanAck);
    assert_eq!(
        ops2,
        vec![
            Ps2Op::WaitInputClear,
            Ps2Op::WritePort(0x60, 0xf4),
            Ps2Op::WaitOutputSet,
            Ps2Op::ReadPort(0x60),
        ]
    );
    assert_eq!(
        log2.out,
        b"[INFO] Keyboard RESET ACK: 0xfe\r\n[INFO] Keyboard did not ACK reset as expected: 0xfe\r\n"
            .to_vec()
    );
}

#[test]
fn test_ps2_full_walk_reaches_done() {
    let mut log = SerialLogger::new();
    let mut state = Ps2State::Start;
    let inputs = [0u8, 0xff, 0x00, 0x00, 0x02, 0xfa, 0xaa, 0xfa, 0xfd];
    for &input in inputs.iter() {
        let (next, _ops) = ps2_init_step(state, input, &mut log);
        state = next;
    }
    assert!(state == Ps2State::Done);
    let text = String::from_utf8(log.out.clone()).unwrap();
    assert!(text.contains("Keyboard BAT response: 0xaa"));
    assert!(text.contains("Keyboard scanning ACK: 0xfa"));
    assert!(text.ends_with("[INFO] PS/2 controller initialized\r\n"));
    // The final step writes the keyboard-unmasked master mask.
    let mut log2 = SerialLogger::new();
    let (done, ops) = ps2_init_step(Ps2State::AwaitFinalMask, 0xfd, &mut log2);
    assert!(done == Ps2State::Done);
    assert_eq!(ops, vec![Ps2Op::WritePort(0x21, 0xfd & 0xfd)]);
    // Once done, the machine asks for nothing more.
    let (still_done, no_ops) = ps2_init_step(Ps2State::Done, 0x55, &mut log2);
    assert!(still_done == Ps2State::Done);
    assert!(no_ops.is_empty());
}
