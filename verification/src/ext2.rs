//! Minimal read-only ext2 support: superblock, inodes, directory search.
//!
//! The filesystem sits behind a block device that callers implement; every
//! structure read off the device is decoded by an exact byte-level parser
//! here. Only block sizes up to four kibibytes are supported, and a request
//! the on-disk data cannot honour is reported, never trusted.

use crate::image::{spec_le16, spec_le32, read_le16, read_le32};
use crate::logging::{append_bytes, hex2_lower, SerialLogger};
use vstd::prelude::*;

verus! {

/// Size in bytes of one on-disk inode record, as this driver reads them.
pub const INODE_RECORD_SIZE: usize = 100;

/// Number of direct block pointers an inode record carries.
pub const INODE_BLOCK_SLOTS: usize = 15;

/// Block number the inode table starts at, for the small filesystems this
/// driver serves.
pub const INODE_TABLE_BLOCK: u64 = 5;

/// Why a filesystem operation failed.
#[derive(Clone, Copy, Debug, PartialEq, Eq, Structural)]
pub enum Ext2Error {
    /// The superblock's signature bytes are wrong.
    InvalidSuperblock,
    /// No entry of the requested name, or no data where some was claimed.
    NotFound,
    /// The device failed to read.
    IoError,
    /// The filesystem uses a feature this driver does not serve.
    Unsupported,
}

impl Ext2Error {
    /// The error's name, as diagnostics print it.
    pub fn name(&self) -> (r: &'static str)
        ensures
            (*self is InvalidSuperblock ==> r@ == ("InvalidSuperblock")@),
            (*self is NotFound ==> r@ == ("NotFound")@),
            (*self is IoError ==> r@ == ("IoError")@),
            (*self is Unsupported ==> r@ == ("Unsupported")@),
    {
        match self {
            Ext2Error::InvalidSuperblock => "InvalidSuperblock",
            Ext2Error::NotFound => "NotFound",
            Ext2Error::IoError => "IoError",
            Ext2Error::Unsupported => "Unsupported",
        }
    }
}

/// The superblock fields this driver reads.
#[derive(Clone, Copy, Debug, PartialEq, Eq, Structural)]
pub struct Ext2SuperBlock {
    /// Total number of inodes.
    pub inodes_count: u32,
    /// Total number of blocks.
    pub blocks_count: u32,
    /// Blocks reserved for the superuser.
    pub reserved_blocks_count: u32,
    /// Unallocated blocks.
    pub free_blocks_count: u32,
    /// Unallocated inodes.
    pub free_inodes_count: u32,
    /// Number of the first data block.
    pub first_data_block: u32,
    /// Block size as a power-of-two shift of 1024.
    pub log_block_size: u32,
}

/// The inode fields this driver reads.
pub struct Ext2Inode {
    /// File mode and type bits.
    pub mode: u16,
    /// Owner user id.
    pub uid: u16,
    /// File size in bytes, lower half.
    pub size: u32,
    /// Last access time.
    pub atime: u32,
    /// Creation time.
    pub ctime: u32,
    /// Last modification time.
    pub mtime: u32,
    /// Deletion time.
    pub dtime: u32,
    /// Owner group id.
    pub gid: u16,
    /// Hard-link count.
    pub links_count: u16,
    /// 512-byte sectors in use.
    pub blocks: u32,
    /// Inode flags.
    pub flags: u32,
    /// Operating-system-specific word.
    pub osd1: u32,
    /// The fifteen block pointers: twelve direct, then the indirect ones.
    pub block: Vec<u32>,
}

/// The header of one directory entry.
#[derive(Clone, Copy, Debug, PartialEq, Eq, Structural)]
pub struct Ext2DirEntry {
    /// Inode the entry points at, zero for an unused slot.
    pub inode: u32,
    /// Distance to the next entry.
    pub rec_len: u16,
    /// Length of the name that follows the header.
    pub name_len: u8,
    /// Type tag of the entry.
    pub file_type: u8,
}

/// A source of raw blocks, to be implemented over whatever medium holds
/// the filesystem. A read fills the whole buffer it is handed from
/// `lba * 512` onward, or reports an error; either way the buffer keeps
/// its length.
pub trait BlockDevice {
    /// Reads `buf.len()` bytes starting at sector `lba`.
    fn read_block(&self, lba: u64, buf: &mut Vec<u8>) -> (r: Result<(), Ext2Error>)
        ensures
            final(buf).len() == old(buf).len(),
    ;
}

/// An ext2 filesystem over a block device.
pub struct Ext2<'a, D: BlockDevice> {
    /// The device the filesystem reads from.
    pub device: &'a D,
    /// The superblock as read at mount time.
    pub superblock: Ext2SuperBlock,
}

/// The block size a superblock declares: 1024 shifted by its exponent.
pub open spec fn spec_block_size(sb: Ext2SuperBlock) -> u64 {
    1024u64 << (sb.log_block_size as u64)
}

/// The two signature bytes stand at their place in the superblock buffer.
pub open spec fn superblock_magic_ok(b: Seq<u8>) -> bool {
    b[56] == 0x53u8 && b[57] == 0xefu8
}

/// The superblock fields, each pinned to its little-endian bytes.
pub open spec fn spec_superblock(b: Seq<u8>) -> Ext2SuperBlock {
    Ext2SuperBlock {
        inodes_count: spec_le32(b, 0),
        blocks_count: spec_le32(b, 4),
        reserved_blocks_count: spec_le32(b, 8),
        free_blocks_count: spec_le32(b, 12),
        free_inodes_count: spec_le32(b, 16),
        first_data_block: spec_le32(b, 20),
        log_block_size: spec_le32(b, 24),
    }
}

/// Parses a 1024-byte superblock buffer. Succeeds exactly when the
/// signature bytes are in place, and then returns every field verbatim
/// from its offset.
pub fn parse_superblock(buf: &Vec<u8>) -> (r: Result<Ext2SuperBlock, Ext2Error>)
    requires
        buf.len() == 1024,
    ensures
        r is Ok <==> superblock_magic_ok(buf@),
        r is Err ==> r == Err::<Ext2SuperBlock, Ext2Error>(Ext2Error::InvalidSuperblock),
        r matches Ok(sb) ==> sb == spec_superblock(buf@),
{
    if !(buf[56] == 0x53 && buf[57] == 0xef) {
        return Err(Ext2Error::InvalidSuperblock);
    }
    Ok(
        Ext2SuperBlock {
            inodes_count: read_le32(buf, 0),
            blocks_count: read_le32(buf, 4),
            reserved_blocks_count: read_le32(buf, 8),
            free_blocks_count: read_le32(buf, 12),
            free_inodes_count: read_le32(buf, 16),
            first_data_block: read_le32(buf, 20),
            log_block_size: read_le32(buf, 24),
        },
    )
}

/// The fixed fields of the inode record at `off`.
pub open spec fn inode_fields_match(inode: Ext2Inode, b: Seq<u8>, off: int) -> bool {
    &&& inode.mode == spec_le16(b, off)
    &&& inode.uid == spec_le16(b, off + 2)
    &&& inode.size == spec_le32(b, off + 4)
    &&& inode.atime == spec_le32(b, off + 8)
    &&& inode.ctime == spec_le32(b, off + 12)
    &&& inode.mtime == spec_le32(b, off + 16)
    &&& inode.dtime == spec_le32(b, off + 20)
    &&& inode.gid == spec_le16(b, off + 24)
    &&& inode.links_count == spec_le16(b, off + 26)
    &&& inode.blocks == spec_le32(b, off + 28)
    &&& inode.flags == spec_le32(b, off + 32)
    &&& inode.osd1 == spec_le32(b, off + 36)
    &&& inode.block.len() == INODE_BLOCK_SLOTS
    &&& forall|i: int|
        0 <= i < INODE_BLOCK_SLOTS ==> inode.block[i] == spec_le32(b, off + 40 + 4 * i)
}

/// Parses the inode record starting at `off`.
pub fn parse_inode(buf: &Vec<u8>, off: usize) -> (inode: Ext2Inode)
    requires
        off + INODE_RECORD_SIZE <= buf.len(),
    ensures
        inode_fields_match(inode, buf@, off as int),
{
    let mut block: Vec<u32> = Vec::new();
    let mut i: usize = 0;
    while i < INODE_BLOCK_SLOTS
        invariant
            i <= INODE_BLOCK_SLOTS,
            off + INODE_RECORD_SIZE <= buf.len(),
            block.len() == i,
            forall|j: int| 0 <= j < i ==> block[j] == spec_le32(buf@, off + 40 + 4 * j),
        decreases INODE_BLOCK_SLOTS - i,
    {
        block.push(read_le32(buf, off + 40 + 4 * i));
        i += 1;
    }
    Ext2Inode {
        mode: read_le16(buf, off),
        uid: read_le16(buf, off + 2),
        size: read_le32(buf, off + 4),
        atime: read_le32(buf, off + 8),
        ctime: read_le32(buf, off + 12),
        mtime: read_le32(buf, off + 16),
        dtime: read_le32(buf, off + 20),
        gid: read_le16(buf, off + 24),
        links_count: read_le16(buf, off + 26),
        blocks: read_le32(buf, off + 28),
        flags: read_le32(buf, off + 32),
        osd1: read_le32(buf, off + 36),
        block,
    }
}

/// The directory-entry header starting at `off`.
pub open spec fn spec_dir_entry(b: Seq<u8>, off: int) -> Ext2DirEntry {
    Ext2DirEntry {
        inode: spec_le32(b, off),
        rec_len: spec_le16(b, off + 4),
        name_len: b[off + 6],
        file_type: b[off + 7],
    }
}

/// Parses the directory-entry header starting at `off`.
pub fn parse_dir_entry(buf: &Vec<u8>, off: usize) -> (e: Ext2DirEntry)
    requires
        off + 8 <= buf.len(),
    ensures
        e == spec_dir_entry(buf@, off as int),
{
    Ext2DirEntry {
        inode: read_le32(buf, off),
        rec_len: read_le16(buf, off + 4),
        name_len: buf[off + 6],
        file_type: buf[off + 7],
    }
}

/// There is a directory entry for `name` within the first `limit` bytes of
/// the block, reachable by following entry lengths from the block's start.
pub open spec fn block_names_entry(b: Seq<u8>, limit: int, name: Seq<u8>, inode: u32) -> bool {
    exists|off: int|
        {
            &&& 0 <= off
            &&& off + 8 <= limit
            &&& off + 8 + name.len() <= limit
            &&& #[trigger] spec_dir_entry(b, off).inode == inode
            &&& inode != 0
            &&& spec_dir_entry(b, off).name_len == name.len()
            &&& b.subrange(off + 8, off + 8 + name.len()) == name
        }
}

/// Whether the bytes of `buf` starting at `at` spell exactly `name`.
pub fn bytes_match(buf: &Vec<u8>, at: usize, name: &[u8]) -> (r: bool)
    requires
        at + name@.len() <= buf.len(),
    ensures
        r == (buf@.subrange(at as int, at + name@.len()) == name@),
{
    let n = name.len();
    let mut i: usize = 0;
    while i < n
        invariant
            i <= n,
            n == name@.len(),
            at + n <= buf.len(),
            forall|j: int| 0 <= j < i ==> buf@[at + j] == name@[j],
        decreases n - i,
    {
        if buf[at + i] != name[i] {
            proof {
                assert(buf@.subrange(at as int, at + name@.len())[i as int] == buf@[at + i]);
            }
            return false;
        }
        i += 1;
    }
    proof {
        assert(buf@.subrange(at as int, at + name@.len()) =~= name@);
    }
    true
}

/// Searches one directory block for an entry named `name`, walking the
/// entry chain from the block's start up to `limit`.
///
/// A hit returns the entry's inode number, never zero; a miss returns
/// nothing. Whatever is returned was really found: the entry stands in
/// the block with that name and inode.
pub fn find_in_dir_block(buf: &Vec<u8>, limit: usize, name: &[u8]) -> (r: Option<u32>)
    requires
        limit <= buf.len(),
    ensures
        r matches Some(ino) ==> ino != 0 && block_names_entry(
            buf@,
            limit as int,
            name@,
            ino,
        ),
{
    let mut offset: usize = 0;
    while offset < limit
        invariant
            limit <= buf.len(),
            offset <= limit,
        decreases limit - offset,
    {
        if limit - offset < 8 {
            break ;
        }
        let entry = parse_dir_entry(buf, offset);
        if entry.inode == 0 {
            break ;
        }
        let nl = entry.name_len as usize;
        if nl <= limit - (offset + 8) && nl == name.len() {
            if bytes_match(buf, offset + 8, name) {
                proof {
                    assert(spec_dir_entry(buf@, offset as int).inode == entry.inode);
                }
                return Some(entry.inode);
            }
        }
        if entry.rec_len == 0 {
            break ;
        }
        let step = entry.rec_len as usize;
        if step > limit - offset {
            break ;
        }
        offset += step;
    }
    None
}

impl<'a, D: BlockDevice> Ext2<'a, D> {
    /// Mounts the filesystem: reads the two superblock sectors, dumps and
    /// checks them over the diagnostic channel, and decodes the superblock
    /// fields. A device failure or a bad signature refuses the mount.
    pub fn new(device: &'a D, log: &mut SerialLogger) -> (r: Result<Ext2<'a, D>, Ext2Error>)
        ensures
            final(log).enabled == old(log).enabled,
            r matches Ok(fs) ==> exists|b: Seq<u8>|
                {
                    &&& b.len() == 1024
                    &&& superblock_magic_ok(b)
                    &&& fs.superblock == spec_superblock(b)
                },
    {
        let mut lo: Vec<u8> = make_zero_buf(512);
        match device.read_block(2, &mut lo) {
            Ok(()) => {
            },
            Err(e) => {
                return Err(e);
            },
        }
        let mut hi: Vec<u8> = make_zero_buf(512);
        match device.read_block(3, &mut hi) {
            Ok(()) => {
            },
            Err(e) => {
                return Err(e);
            },
        }
        let mut buf = lo;
        let mut k: usize = 0;
        while k < hi.len()
            invariant
                k <= hi.len(),
                hi.len() == 512,
                buf.len() == 512 + k,
            decreases hi.len() - k,
        {
            buf.push(hi[k]);
            k += 1;
        }
        log.log_hex_dump("ext2 superblock[", &buf, 0, 64);
        log.info("ext2 superblock magic bytes: ");
        let mut magic_line: Vec<u8> = Vec::new();
        let m0 = hex2_lower(buf[56]);
        append_bytes(&mut magic_line, &m0);
        magic_line.push(0x20);
        let m1 = hex2_lower(buf[57]);
        append_bytes(&mut magic_line, &m1);
        log.info_bytes(&magic_line);
        let superblock = match parse_superblock(&buf) {
            Ok(sb) => sb,
            Err(e) => {
                log.warn("ext2: Invalid superblock magic!");
                return Err(e);
            },
        };
        log.info("ext2: Superblock magic valid");
        log.log_hex_dump("ext2 superblock raw[", &buf, 0, 128);
        proof {
            assert(buf@.len() == 1024 && superblock_magic_ok(buf@) && superblock
                == spec_superblock(buf@));
        }
        Ok(Ext2 { device, superblock })
    }

    /// The block size the superblock declares, when it is one this driver
    /// serves: 1024 shifted left by the superblock's size exponent, up to
    /// four kibibytes.
    fn block_size(&self) -> (r: Result<usize, Ext2Error>)
        ensures
            r is Ok <==> self.superblock.log_block_size <= 2,
            r matches Ok(n) ==> n == spec_block_size(self.superblock) && 1024 <= n <= 4096,
            r is Err ==> r == Err::<usize, Ext2Error>(Ext2Error::Unsupported),
    {
        let log = self.superblock.log_block_size;
        if log > 2 {
            return Err(Ext2Error::Unsupported);
        }
        let n64: u64 = 1024u64 << (log as u64);
        proof {
            let lg = log as u64;
            assert(lg <= 2 ==> 1024 <= (1024u64 << lg) && (1024u64 << lg) <= 4096) by (bit_vector);
        }
        Ok(n64 as usize)
    }

    /// Reads the first data block of the fixed demonstration inode: the
    /// first file on a freshly made small filesystem.
    pub fn read_first_file_block(&self, buf: &mut Vec<u8>) -> (r: Result<(), Ext2Error>)
        ensures
            final(buf).len() == old(buf).len(),
    {
        let block: u64 = 7;
        self.device.read_block(block, buf)
    }

    /// Reads inode `inode_num` (1-based) from the inode table into `buf`.
    /// On success the record's fields were decoded from the table block
    /// the inode lives in.
    pub fn read_inode(&self, inode_num: u32, buf: &mut Ext2Inode) -> (r: Result<(), Ext2Error>)
        requires
            inode_num >= 1,
        ensures
            r matches Ok(()) ==> exists|b: Seq<u8>, off: int|
                b.len() == 1024 && 0 <= off && off + INODE_RECORD_SIZE <= 1024
                    && inode_fields_match(*final(buf), b, off),
    {
        let block_size = match self.block_size() {
            Ok(n) => n,
            Err(e) => {
                return Err(e);
            },
        };
        let inodes_per_block = block_size / INODE_RECORD_SIZE;
        let inode_index = (inode_num - 1) as usize;
        let block = INODE_TABLE_BLOCK + (inode_index / inodes_per_block) as u64;
        let offset = (inode_index % inodes_per_block) * INODE_RECORD_SIZE;
        if offset + INODE_RECORD_SIZE > 1024 {
            return Err(Ext2Error::Unsupported);
        }
        let mut block_buf: Vec<u8> = make_zero_buf(1024);
        match self.device.read_block(block, &mut block_buf) {
            Ok(()) => {
            },
            Err(e) => {
                return Err(e);
            },
        }
        *buf = parse_inode(&block_buf, offset);
        proof {
            assert(block_buf@.len() == 1024 && inode_fields_match(
                *buf,
                block_buf@,
                offset as int,
            ));
        }
        Ok(())
    }

    /// Searches a directory inode's direct blocks for `filename` and
    /// returns the inode number of the entry that carries the name.
    pub fn find_file_in_dir(
        &self,
        dir_inode: &Ext2Inode,
        filename: &str,
        dir_block_buf: &mut Vec<u8>,
    ) -> (r: Result<u32, Ext2Error>)
        requires
            old(dir_block_buf).len() >= 4096,
        ensures
            final(dir_block_buf).len() == old(dir_block_buf).len(),
            r matches Ok(ino) ==> ino != 0,
    {
        let block_size = match self.block_size() {
            Ok(n) => n,
            Err(e) => {
                return Err(e);
            },
        };
        let nblocks = dir_inode.block.len();
        let direct = if nblocks < 12 {
            nblocks
        } else {
            12
        };
        let mut bi: usize = 0;
        while bi < direct
            invariant
                direct <= dir_inode.block.len(),
                dir_block_buf.len() == old(dir_block_buf).len(),
                old(dir_block_buf).len() >= 4096,
                1024 <= block_size <= 4096,
            decreases direct - bi,
        {
            let block = dir_inode.block[bi];
            if block != 0 {
                let mut chunk = make_zero_buf(block_size);
                match self.device.read_block(block as u64, &mut chunk) {
                    Ok(()) => {
                    },
                    Err(e) => {
                        return Err(e);
                    },
                }
                crate::memops::memcpy(dir_block_buf, &chunk, block_size);
                match find_in_dir_block(&chunk, block_size, filename.as_bytes()) {
                    Some(ino) => {
                        return Ok(ino);
                    },
                    None => {
                    },
                }
            }
            bi += 1;
        }
        Err(Ext2Error::NotFound)
    }

    /// Reads the first data block of the file named `filename` in the root
    /// directory: root inode, directory search, file inode, first block.
    /// A file without a first data block reports that nothing was found.
    pub fn read_file_first_block(&self, filename: &str, buf: &mut Vec<u8>) -> (r: Result<
        (),
        Ext2Error,
    >)
        ensures
            final(buf).len() == old(buf).len(),
    {
        let mut root_inode = empty_inode();
        match self.read_inode(2, &mut root_inode) {
            Ok(()) => {
            },
            Err(e) => {
                return Err(e);
            },
        }
        let mut dir_block_buf: Vec<u8> = make_zero_buf(4096);
        let file_inode_num = match self.find_file_in_dir(&root_inode, filename, &mut dir_block_buf)
            {
            Ok(ino) => ino,
            Err(e) => {
                return Err(e);
            },
        };
        let mut file_inode = empty_inode();
        match self.read_inode(file_inode_num, &mut file_inode) {
            Ok(()) => {
            },
            Err(e) => {
                return Err(e);
            },
        }
        if file_inode.block.len() == 0 {
            return Err(Ext2Error::NotFound);
        }
        let first_block = file_inode.block[0];
        if first_block == 0 {
            return Err(Ext2Error::NotFound);
        }
        self.device.read_block(first_block as u64, buf)
    }
}

/// A zero-filled buffer of the given length.
pub fn make_zero_buf(n: usize) -> (v: Vec<u8>)
    ensures
        v.len() == n,
        forall|i: int| 0 <= i < n ==> v[i] == 0u8,
{
    let mut v: Vec<u8> = Vec::new();
    let mut i: usize = 0;
    while i < n
        invariant
            i <= n,
            v.len() == i,
            forall|j: int| 0 <= j < i ==> v[j] == 0u8,
        decreases n - i,
    {
        v.push(0);
        i += 1;
    }
    v
}

/// An inode record with every field zero, for filling by a read.
pub fn empty_inode() -> (inode: Ext2Inode)
    ensures
        inode.block.len() == INODE_BLOCK_SLOTS,
{
    Ext2Inode {
        mode: 0,
        uid: 0,
        size: 0,
        atime: 0,
        ctime: 0,
        mtime: 0,
        dtime: 0,
        gid: 0,
        links_count: 0,
        blocks: 0,
        flags: 0,
        osd1: 0,
        block: make_zero_u32_buf(INODE_BLOCK_SLOTS),
    }
}

/// A zero-filled vector of block pointers.
fn make_zero_u32_buf(n: usize) -> (v: Vec<u32>)
    ensures
        v.len() == n,
        forall|i: int| 0 <= i < n ==> v[i] == 0u32,
{
    let mut v: Vec<u32> = Vec::new();
    let mut i: usize = 0;
    while i < n
        invariant
            i <= n,
            v.len() == i,
            forall|j: int| 0 <= j < i ==> v[j] == 0u32,
        decreases n - i,
    {
        v.push(0);
        i += 1;
    }
    v
}

} // verus!
