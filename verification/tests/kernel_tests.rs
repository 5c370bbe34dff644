use polished_boot::framebuffer::{FramebufferFormat, FramebufferInfo};
use polished_boot::kernel::{
    log_ext2_image_header, log_framebuffer_info, try_mount_ext2, BringUp, BringUpStage,
    VirtioBlockDevice, HEAP_SIZE, HEAP_START,
};
use polished_boot::logging::SerialLogger;

#[test]
fn test_heap_constants() {
    assert_eq!(HEAP_START, 0x1000_0000);
    assert_eq!(HEAP_SIZE, 0x0100_0000);
}

#[test]
fn test_log_framebuffer_info_line() {
    let info = FramebufferInfo {
        address: 0xfd00_0000,
        size: 2457600,
        width: 800,
        height: 600,
        stride: 1024,
        format: FramebufferFormat::Bgr,
    };
    let mut log = SerialLogger::new();
    log_framebuffer_info(Some(&info), &mut log);
    assert_eq!(
        String::from_utf8(log.out.clone()).unwrap(),
        "[INFO] FramebufferInfo: address=0xfd000000, size=2457600, 800x600, stride=1024, format=Bgr\r\n"
    );
}

#[test]
fn test_log_framebuffer_info_missing() {
    let mut log = SerialLogger::new();
    log_framebuffer_info(None, &mut log);
    assert_eq!(log.out, b"[INFO] FramebufferInfo pointer is null\r\n".to_vec());
}

#[test]
fn test_log_ext2_image_header_lines() {
    let mut header = vec![0u8; 128];
    header[0] = 0xab;
    header[1] = 0x01;
    header[127] = 0xff;
    let mut log = SerialLogger::new();
    log_ext2_image_header(&header, &mut log);
    let text = String::from_utf8(log.out.clone()).unwrap();
    let lines: Vec<&str> = text.split("\r\n").filter(|l| !l.is_empty()).collect();
    assert_eq!(lines.len(), 8);
    assert!(lines[0].starts_with("[INFO] ext2 image @0x100000 [000-015]: ab 01 00 00"));
    assert!(lines[7].starts_with("[INFO] ext2 image @0x100000 [112-127]: "));
    assert!(lines[7].ends_with("ff "));
}

#[test]
fn test_try_mount_ext2_reports_bad_disk() {
    let device = VirtioBlockDevice { disk: vec![0u8; 4096] };
    let mut log = SerialLogger::new();
    try_mount_ext2(&device, &mut log);
    let text = String::from_utf8(log.out.clone()).unwrap();
    assert!(text.ends_with(
        "[WARNING] ext2: Invalid superblock magic!\r\n[INFO] Failed to mount ext2: InvalidSuperblock\r\n"
    ));
}

#[test]
fn test_bring_up_order() {
    let mut b = BringUp::new();
    assert!(b.stage == BringUpStage::Uninitialized);
    b.descriptor_table_built();
    assert!(b.stage == BringUpStage::DescriptorTableBuilt);
    b.fault_stacks_ready();
    assert!(b.stage == BringUpStage::FaultStacksReady);
    b.vector_table_built();
    assert!(b.stage == BringUpStage::VectorTableBuilt);
    b.armed();
    assert!(b.stage == BringUpStage::Armed);
}
