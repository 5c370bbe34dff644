use polished_boot::syscalls::{syscall_handler, syscall_test, Syscall};

#[test]
fn test_syscall_test() {
    assert_eq!(syscall_test(), 42);
}

#[test]
fn test_syscall_handler_dispatch() {
    assert_eq!(syscall_handler(Syscall::Test.number(), 0, 0, 0, 0, 0, 0), 42);
    assert_eq!(syscall_handler(999, 0, 0, 0, 0, 0, 0), u64::MAX);
}
