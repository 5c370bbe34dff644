use polished_boot::boot::{announce_entry_point, load_kernel, prepare_handoff};
use polished_boot::framebuffer::{FramebufferFormat, FramebufferInfo};
use polished_boot::logging::SerialLogger;

fn tiny_image(entry: u64) -> Vec<u8> {
    let mut image = vec![0u8; 64];
    image[0] = 0x7f;
    image[1] = 0x45;
    image[2] = 0x4c;
    image[3] = 0x46;
    image[4] = 2;
    image[24..32].copy_from_slice(&entry.to_le_bytes());
    image[32..40].copy_from_slice(&64u64.to_le_bytes());
    image[54..56].copy_from_slice(&56u16.to_le_bytes());
    image
}

#[test]
fn test_load_kernel_logs_path_and_entry() {
    let image = tiny_image(0xabcd);
    let mut log = SerialLogger::new();
    let plan = load_kernel("\\EFI\\BOOT\\kernel", &image, &mut log).unwrap();
    assert_eq!(plan.entry, 0xabcd);
    assert_eq!(
        String::from_utf8(log.out.clone()).unwrap(),
        "[INFO] Loading kernel from ELF file: \\EFI\\BOOT\\kernel\r\n\
         [INFO] Kernel entry point: 0xabcd\r\n"
    );
}

#[test]
fn test_announce_entry_point_line() {
    let mut log = SerialLogger::new();
    announce_entry_point(0x1234, &mut log);
    assert_eq!(
        log.out,
        b"[INFO] Jumping to kernel entry point at 0x1234\r\n".to_vec()
    );
}

#[test]
fn test_prepare_handoff_passes_entry_verbatim() {
    let image = tiny_image(0xffff_ffff_0000_0001);
    let mut log = SerialLogger::new();
    let plan = load_kernel("\\kernel", &image, &mut log).unwrap();
    let fb = FramebufferInfo {
        address: 0xfd00_0000,
        size: 1,
        width: 1,
        height: 1,
        stride: 1,
        format: FramebufferFormat::Rgb,
    };
    let handoff = prepare_handoff(&plan, fb);
    assert_eq!(handoff.entry, 0xffff_ffff_0000_0001);
    assert_eq!(handoff.framebuffer, fb);
}
