use polished_boot::framebuffer::{clear_framebuffer_bytes, FramebufferFormat, FramebufferInfo};
use polished_boot::kernel::clear_framebuffer;
use polished_boot::logging::SerialLogger;

#[test]
fn test_full_clear_writes_exactly_size_bytes() {
    // Stride padding makes the region larger than the visible area: the
    // clear covers the whole region, not width * height * 4.
    let info = FramebufferInfo {
        address: 0x8000_0000,
        size: 1024 * 600 * 4,
        width: 800,
        height: 600,
        stride: 1024,
        format: FramebufferFormat::Bgr,
    };
    assert_ne!(info.size, info.width * info.height * 4);
    let mut buffer = vec![0x5au8; info.size];
    let mut log = SerialLogger::new();
    clear_framebuffer(Some(&info), &mut buffer, &mut log);
    assert_eq!(buffer.len(), info.size);
    assert!(buffer.iter().all(|&b| b == 0));
    assert_eq!(log.out, b"[INFO] Framebuffer buffer filled with black\r\n".to_vec());
}

#[test]
fn test_clear_without_description_warns() {
    let mut buffer = vec![0x5au8; 16];
    let mut log = SerialLogger::new();
    clear_framebuffer(None, &mut buffer, &mut log);
    assert_eq!(buffer, vec![0x5au8; 16]);
    assert_eq!(
        log.out,
        b"[WARNING] FramebufferInfo pointer is null, cannot fill buffer\r\n".to_vec()
    );
}

#[test]
fn test_clear_framebuffer_bytes_all_zero() {
    let mut buffer = vec![0xffu8; 33];
    clear_framebuffer_bytes(&mut buffer);
    assert_eq!(buffer, vec![0u8; 33]);
}

#[test]
fn test_format_names() {
    assert_eq!(FramebufferFormat::Rgb.name(), "Rgb");
    assert_eq!(FramebufferFormat::Bgr.name(), "Bgr");
    assert_eq!(FramebufferFormat::Bitmask.name(), "Bitmask");
    assert_eq!(FramebufferFormat::BltOnly.name(), "BltOnly");
}
