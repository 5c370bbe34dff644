use polished_boot::logging::SerialLogger;
use polished_boot::panic_report::{print_panic_info_serial, PanicLocation, PanicReport};

#[test]
fn test_panic_report_with_location_and_message() {
    let report = PanicReport {
        location: Some(PanicLocation {
            file: String::from("kernel/src/main.rs"),
            line: 42,
            column: 7,
        }),
        message: Some(String::from("something went wrong")),
    };
    let mut log = SerialLogger::new();
    print_panic_info_serial(&report, &mut log);
    assert_eq!(
        String::from_utf8(log.out.clone()).unwrap(),
        "=== PANIC ===\n\
         Location: kernel/src/main.rs:42:7\n\
         Message: something went wrong\n\
         =============\n\n\n"
    );
}

#[test]
fn test_panic_report_unknown() {
    let report = PanicReport { location: None, message: None };
    let mut log = SerialLogger::new();
    print_panic_info_serial(&report, &mut log);
    assert_eq!(
        String::from_utf8(log.out.clone()).unwrap(),
        "=== PANIC ===\n\
         Location: <unknown>\n\
         Message: <none>\n\
         =============\n\n\n"
    );
}
