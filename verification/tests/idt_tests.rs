use polished_boot::gdt::{DOUBLE_FAULT_IST_INDEX, NMI_IST_INDEX};
use polished_boot::idt::{
    divide_by_zero_handler, general_protection_fault_handler, keyboard_interrupt_handler,
    timer_interrupt_handler, FaultAction, HandlerKind, IdtController,
};
use polished_boot::logging::DebugSerial;

fn built_controller() -> IdtController {
    let mut c = IdtController::new();
    c.init_idt();
    c
}

#[test]
fn test_init_idt_populates_all_exception_vectors() {
    let c = built_controller();
    let table = c.built.as_ref().unwrap();
    for v in 0..32u8 {
        assert!(table.vector_entry(v).is_some(), "vector {} has no handler", v);
    }
}

#[test]
fn test_fault_vectors_bound_to_dedicated_stacks() {
    let c = built_controller();
    let table = c.built.as_ref().unwrap();
    let df = table.vector_entry(8).unwrap();
    assert!(df.handler == HandlerKind::DoubleFault);
    assert_eq!(df.stack_index, DOUBLE_FAULT_IST_INDEX);
    let nmi = table.vector_entry(2).unwrap();
    assert!(nmi.handler == HandlerKind::NonMaskableInterrupt);
    assert_eq!(nmi.stack_index, NMI_IST_INDEX);
}

#[test]
fn test_device_vectors() {
    let c = built_controller();
    let table = c.built.as_ref().unwrap();
    assert!(table.vector_entry(32).unwrap().handler == HandlerKind::Timer);
    assert!(table.vector_entry(33).unwrap().handler == HandlerKind::Keyboard);
    assert!(table.vector_entry(43).unwrap().handler == HandlerKind::Network);
    assert!(table.vector_entry(44).unwrap().handler == HandlerKind::Mouse);
    assert!(table.vector_entry(46).unwrap().handler == HandlerKind::Disk);
    assert!(table.vector_entry(47).unwrap().handler == HandlerKind::OtherHardware);
    assert!(table.vector_entry(55).unwrap().handler == HandlerKind::Usb);
    assert!(table.vector_entry(100).is_none());
}

#[test]
fn test_init_idt_idempotent() {
    let mut c = IdtController::new();
    c.init_idt();
    let first: Vec<_> = (0..=255u8)
        .map(|v| c.built.as_ref().unwrap().vector_entry(v))
        .collect();
    c.init_idt();
    let second: Vec<_> = (0..=255u8)
        .map(|v| c.built.as_ref().unwrap().vector_entry(v))
        .collect();
    assert_eq!(first, second);
}

#[test]
fn test_divide_by_zero_diagnostic_and_halt() {
    // After vector-table construction vector 0 really has its handler, so
    // the fault reaches it rather than escalating.
    let c = built_controller();
    let entry = c.built.as_ref().unwrap().vector_entry(0).unwrap();
    assert!(entry.handler == HandlerKind::DivideByZero);
    let mut out = DebugSerial::new();
    let action = divide_by_zero_handler(&mut out);
    let text = String::from_utf8(out.out.clone()).unwrap();
    assert!(text.contains("DIVIDE BY ZERO"));
    assert!(action == FaultAction::Halt);
}

#[test]
fn test_general_protection_fault_output() {
    let mut out = DebugSerial::new();
    let action = general_protection_fault_handler(&mut out, "frame", 0x10);
    let text = String::from_utf8(out.out.clone()).unwrap();
    assert!(text.starts_with("[ERROR] General Protection Fault: frame\r\n"));
    assert!(text.contains("[ERROR] Error Code: 0x10\r\n"));
    assert!(action == FaultAction::Panic);
}

#[test]
fn test_timer_acknowledges_and_returns() {
    let mut out = DebugSerial::new();
    let action = timer_interrupt_handler(&mut out);
    assert!(out.out.is_empty());
    assert!(action == FaultAction::AcknowledgeAndReturn);
}

#[test]
fn test_keyboard_handler_printable_key() {
    let mut out = DebugSerial::new();
    let action = keyboard_interrupt_handler(&mut out, 0x1e);
    let text = String::from_utf8(out.out.clone()).unwrap();
    assert_eq!(
        text,
        "[INFO] INT 0x21: Keyboard interrupt, scancode: 0x1e | ASCII: 'A'\r\n"
    );
    assert!(action == FaultAction::AcknowledgeAndReturn);
}

#[test]
fn test_keyboard_handler_ack_byte() {
    let mut out = DebugSerial::new();
    keyboard_interrupt_handler(&mut out, 0xfa);
    let text = String::from_utf8(out.out.clone()).unwrap();
    assert_eq!(
        text,
        "[INFO] INT 0x21: Keyboard interrupt, received 0xFA (possible ACK, not a keypress)\r\n"
    );
}

#[test]
fn test_keyboard_handler_break_code_silent() {
    let mut out = DebugSerial::new();
    let action = keyboard_interrupt_handler(&mut out, 0x9e);
    assert!(out.out.is_empty());
    assert!(action == FaultAction::AcknowledgeAndReturn);
}

#[test]
fn test_keyboard_handler_unknown_key() {
    let mut out = DebugSerial::new();
    keyboard_interrupt_handler(&mut out, 0x3a);
    let text = String::from_utf8(out.out.clone()).unwrap();
    assert_eq!(
        text,
        "[INFO] INT 0x21: Keyboard interrupt, scancode: 0x3a | ASCII: Unknown\r\n"
    );
}
