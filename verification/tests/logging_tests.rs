use polished_boot::logging::{dec_bytes, hex2_lower, hex_bytes, hex_lower_bytes, DebugSerial, SerialLogger};

#[test]
fn test_hex_bytes_zero_and_value() {
    assert_eq!(hex_bytes(0), b"0".to_vec());
    assert_eq!(hex_bytes(0xdeadbeef), b"DEADBEEF".to_vec());
    assert_eq!(hex_bytes(0x10), b"10".to_vec());
}

#[test]
fn test_hex_lower_bytes() {
    assert_eq!(hex_lower_bytes(0), b"0".to_vec());
    assert_eq!(hex_lower_bytes(0xdeadbeef), b"deadbeef".to_vec());
}

#[test]
fn test_hex2_lower_padding() {
    assert_eq!(hex2_lower(0x0a), b"0a".to_vec());
    assert_eq!(hex2_lower(0xf0), b"f0".to_vec());
}

#[test]
fn test_dec_bytes() {
    assert_eq!(dec_bytes(0), b"0".to_vec());
    assert_eq!(dec_bytes(1024), b"1024".to_vec());
    assert_eq!(dec_bytes(u64::MAX), b"18446744073709551615".to_vec());
}

#[test]
fn test_info_line_framing() {
    let mut log = SerialLogger::new();
    log.info("System started");
    assert_eq!(log.out, b"[INFO] System started\r\n".to_vec());
}

#[test]
fn test_warn_and_error_prefixes() {
    let mut log = SerialLogger::new();
    log.warn("Low disk space");
    log.error("An error occurred");
    assert_eq!(
        log.out,
        b"[WARNING] Low disk space\r\n[ERROR] An error occurred\r\n".to_vec()
    );
}

#[test]
fn test_info_hex_line() {
    let mut log = SerialLogger::new();
    log.info_hex(0xdeadbeef);
    assert_eq!(log.out, b"[INFO] 0xDEADBEEF\r\n".to_vec());
}

#[test]
fn test_serial_write_hex_zero() {
    let mut log = SerialLogger::new();
    log.serial_write_hex(0);
    assert_eq!(log.out, b"0".to_vec());
}

#[test]
fn test_disabled_logger_swallows_output() {
    let mut log = SerialLogger::new();
    assert!(log.is_serial_logging_enabled());
    log.disable_serial_logging();
    assert!(!log.is_serial_logging_enabled());
    log.info("hidden");
    log.serial_write_str("hidden too");
    log.serial_write_byte(0x41);
    assert!(log.out.is_empty());
    log.enable_serial_logging();
    log.info("visible");
    assert_eq!(log.out, b"[INFO] visible\r\n".to_vec());
}

#[test]
fn test_debug_serial_writer() {
    let mut out = DebugSerial::new();
    out.put_byte(b'>');
    out.write_str("boot");
    assert_eq!(out.out, b">boot".to_vec());
}
