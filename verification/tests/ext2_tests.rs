use polished_boot::ext2::{parse_superblock, BlockDevice, Ext2, Ext2Error};
use polished_boot::kernel::{try_mount_ext2, VirtioBlockDevice};
use polished_boot::logging::SerialLogger;

fn put_u32(buf: &mut [u8], off: usize, v: u32) {
    buf[off..off + 4].copy_from_slice(&v.to_le_bytes());
}

fn put_u16(buf: &mut [u8], off: usize, v: u16) {
    buf[off..off + 2].copy_from_slice(&v.to_le_bytes());
}

/// Writes an inode record at `off`: mode, size, and the first block
/// pointer are all the driver walks.
fn put_inode(disk: &mut [u8], off: usize, mode: u16, size: u32, first_block: u32) {
    put_u16(disk, off, mode);
    put_u32(disk, off + 4, size);
    put_u32(disk, off + 40, first_block);
}

/// A small disk image with a superblock, a root directory holding
/// `myfile.txt`, and one data block of file content.
fn demo_disk() -> Vec<u8> {
    let mut disk = vec![0u8; 8192];
    // Superblock: sectors 2 and 3.
    put_u32(&mut disk, 1024, 64); // inodes_count
    put_u32(&mut disk, 1028, 256); // blocks_count
    put_u32(&mut disk, 1048, 0); // log_block_size: 1024-byte blocks
    disk[1080] = 0x53;
    disk[1081] = 0xef;
    // Inode table starts at sector 5. Inode 2 (root directory) is the
    // second record; its first block pointer names the directory data.
    let root_off = 5 * 512 + 100;
    put_inode(&mut disk, root_off, 0x41ed, 1024, 10);
    // Inode 12 (the file) is record index 11: sector 6, record offset 100.
    let file_off = 6 * 512 + 100;
    put_inode(&mut disk, file_off, 0x81a4, 16, 12);
    // Directory data at sector 10: one entry for "myfile.txt" -> inode 12.
    let dir = 10 * 512;
    put_u32(&mut disk, dir, 12);
    put_u16(&mut disk, dir + 4, 20); // rec_len
    disk[dir + 6] = 10; // name_len
    disk[dir + 7] = 1; // file_type: regular
    disk[dir + 8..dir + 18].copy_from_slice(b"myfile.txt");
    // File data at sector 12.
    let data = 12 * 512;
    disk[data..data + 16].copy_from_slice(b"Hello from ext2!");
    disk
}

#[test]
fn test_parse_superblock_fields() {
    let disk = demo_disk();
    let buf = disk[1024..2048].to_vec();
    let sb = parse_superblock(&buf).unwrap();
    assert_eq!(sb.inodes_count, 64);
    assert_eq!(sb.blocks_count, 256);
    assert_eq!(sb.log_block_size, 0);
}

#[test]
fn test_parse_superblock_bad_magic() {
    let buf = vec![0u8; 1024];
    assert_eq!(parse_superblock(&buf).unwrap_err(), Ext2Error::InvalidSuperblock);
}

#[test]
fn test_mount_and_read_file_first_block() {
    let device = VirtioBlockDevice { disk: demo_disk() };
    let mut log = SerialLogger::new();
    let fs = Ext2::new(&device, &mut log).unwrap();
    let text = String::from_utf8(log.out.clone()).unwrap();
    assert!(text.contains("[INFO] ext2 superblock[000-015]: "));
    assert!(text.contains("[INFO] ext2 superblock magic bytes: \r\n[INFO] 53 ef\r\n"));
    assert!(text.contains("[INFO] ext2: Superblock magic valid\r\n"));
    assert!(text.contains("[INFO] ext2 superblock raw[112-127]: "));
    assert_eq!(fs.superblock.inodes_count, 64);
    let mut buf = vec![0u8; 1024];
    fs.read_file_first_block("myfile.txt", &mut buf).unwrap();
    assert_eq!(&buf[..16], b"Hello from ext2!");
}

#[test]
fn test_missing_file_not_found() {
    let device = VirtioBlockDevice { disk: demo_disk() };
    let mut log = SerialLogger::new();
    let fs = Ext2::new(&device, &mut log).unwrap();
    let mut buf = vec![0u8; 1024];
    assert_eq!(
        fs.read_file_first_block("nofile.txt", &mut buf).unwrap_err(),
        Ext2Error::NotFound
    );
}

#[test]
fn test_mount_rejects_bad_magic() {
    let mut disk = demo_disk();
    disk[1080] = 0;
    let device = VirtioBlockDevice { disk };
    let mut log = SerialLogger::new();
    assert!(matches!(Ext2::new(&device, &mut log), Err(Ext2Error::InvalidSuperblock)));
    let text = String::from_utf8(log.out.clone()).unwrap();
    assert!(text.ends_with("[WARNING] ext2: Invalid superblock magic!\r\n"));
}

#[test]
fn test_virtio_device_reads_exact_range() {
    let mut disk = vec![0u8; 2048];
    for (i, b) in disk.iter_mut().enumerate() {
        *b = (i % 251) as u8;
    }
    let device = VirtioBlockDevice { disk: disk.clone() };
    let mut buf = vec![0u8; 512];
    device.read_block(2, &mut buf).unwrap();
    assert_eq!(&buf[..], &disk[1024..1536]);
    // A read past the end of the image fails and leaves the buffer alone.
    let before = buf.clone();
    assert_eq!(device.read_block(4, &mut buf).unwrap_err(), Ext2Error::IoError);
    assert_eq!(buf, before);
}

#[test]
fn test_unsupported_block_size() {
    let mut disk = demo_disk();
    put_u32(&mut disk, 1048, 3); // 8 KiB blocks: beyond what is served
    let device = VirtioBlockDevice { disk };
    let mut log = SerialLogger::new();
    let fs = Ext2::new(&device, &mut log).unwrap();
    let mut buf = vec![0u8; 1024];
    assert_eq!(
        fs.read_file_first_block("myfile.txt", &mut buf).unwrap_err(),
        Ext2Error::Unsupported
    );
}

#[test]
fn test_try_mount_reads_demo_file() {
    let device = VirtioBlockDevice { disk: demo_disk() };
    let mut log = SerialLogger::new();
    try_mount_ext2(&device, &mut log);
    let text = String::from_utf8(log.out.clone()).unwrap();
    assert!(text.contains("[INFO] Mounted ext2 filesystem (virtio hack)\r\n"));
    assert!(text.contains("Read myfile.txt block: Hello from ext2!"));
}

#[test]
fn test_read_first_file_block_fixed_block() {
    // The demonstration shortcut reads block 7 outright.
    let mut disk = vec![0u8; 8192];
    disk[1080] = 0x53;
    disk[1081] = 0xef;
    let marker = b"fixed block seven";
    disk[7 * 512..7 * 512 + marker.len()].copy_from_slice(marker);
    let device = VirtioBlockDevice { disk };
    let mut log = SerialLogger::new();
    let fs = Ext2::new(&device, &mut log).unwrap();
    let mut buf = vec![0u8; 512];
    fs.read_first_file_block(&mut buf).unwrap();
    assert_eq!(&buf[..marker.len()], marker);
}
