//! Plain records that the filesystem objects hand out.

use vstd::prelude::*;

verus! {

/// What kind of object an inode is.
#[derive(Clone, Copy, Debug, PartialEq, Eq, Structural)]
pub enum NodeType {
    Unknown,
    Fifo,
    CharDevice,
    Dir,
    BlockDevice,
    File,
    SymLink,
    Socket,
}

/// The nine permission bits of an inode.
#[derive(Clone, Copy, Debug, PartialEq, Eq, Structural)]
pub struct NodePerm {
    bits: u16,
}

impl NodePerm {
    /// Every bit that is a permission bit.
    pub const ALL: u16 = 0o777;

    /// The permission bits as a number.
    pub closed spec fn bits_spec(&self) -> u16 {
        self.bits
    }

    /// The permission bits among `bits`; any other bit is dropped.
    pub fn from_bits_truncate(bits: u16) -> (r: NodePerm)
        ensures
            r.bits_spec() == bits & NodePerm::ALL,
    {
        NodePerm { bits: bits & NodePerm::ALL }
    }

    /// The permission bits as a number.
    pub fn bits(&self) -> (r: u16)
        ensures
            r == self.bits_spec(),
    {
        self.bits
    }
}

/// A point in time: whole seconds and the nanoseconds past them.
#[derive(Clone, Copy, Debug, PartialEq, Eq, Structural)]
pub struct TimeSpec {
    pub sec: u64,
    pub nsec: u64,
}

impl Default for TimeSpec {
    /// The start of the epoch.
    fn default() -> (r: TimeSpec)
        ensures
            r == (TimeSpec { sec: 0, nsec: 0 }),
    {
        TimeSpec { sec: 0, nsec: 0 }
    }
}

/// One line of a directory listing.
#[derive(Clone, Debug, PartialEq, Eq)]
pub struct DirEntry {
    /// The inode number that the name denotes.
    pub ino: u64,
    /// The position of the line in the listing.
    pub offset: u64,
    /// What kind of object the name denotes.
    pub type_: NodeType,
    /// The name.
    pub name: String,
}

/// A snapshot of a mounted filesystem's aggregate numbers.
#[derive(Clone, Copy, Debug, PartialEq, Eq)]
pub struct FsStat {
    pub f_bsize: i64,
    pub f_frsize: i64,
    pub f_blocks: u64,
    pub f_bfree: u64,
    pub f_bavail: u64,
    pub f_files: u64,
    pub f_ffree: u64,
    pub f_favail: u64,
    pub f_fsid: u64,
    pub f_flag: u64,
    pub f_namemax: u64,
    pub name: [u8; 32],
}

/// What backs a superblock.
#[derive(Clone, Copy, Debug, PartialEq, Eq, Structural)]
pub enum SuperType {
    BlockDev,
    Independent,
    Other,
}

/// The capabilities that a filesystem type declares, one bit each.
#[derive(Clone, Copy, Debug, PartialEq, Eq, Structural)]
pub struct FileSystemFlags {
    bits: u32,
}

impl FileSystemFlags {
    /// The capability "a mount needs a backing device".
    pub const REQUIRES_DEV: u32 = 0x1;

    /// Every bit that stands for a capability.
    pub const ALL: u32 = 0x3f;

    /// The flags as a number.
    pub closed spec fn bits_spec(&self) -> u32 {
        self.bits
    }

    /// Whether a mount of this filesystem type needs a backing device.
    pub open spec fn requires_dev_spec(&self) -> bool {
        self.bits_spec() & FileSystemFlags::REQUIRES_DEV != 0
    }

    /// No capability at all.
    pub fn empty() -> (r: FileSystemFlags)
        ensures
            r.bits_spec() == 0,
            !r.requires_dev_spec(),
    {
        assert(0u32 & 0x1u32 == 0u32) by (bit_vector);
        FileSystemFlags { bits: 0 }
    }

    /// The capabilities among `bits`; any other bit is dropped.
    pub fn from_bits_truncate(bits: u32) -> (r: FileSystemFlags)
        ensures
            r.bits_spec() == bits & FileSystemFlags::ALL,
            r.requires_dev_spec() == (bits & FileSystemFlags::REQUIRES_DEV != 0),
    {
        assert((bits & 0x3fu32) & 0x1u32 == bits & 0x1u32) by (bit_vector);
        FileSystemFlags { bits: bits & FileSystemFlags::ALL }
    }

    /// The flags as a number.
    pub fn bits(&self) -> (r: u32)
        ensures
            r == self.bits_spec(),
    {
        self.bits
    }

    /// Whether a mount of this filesystem type needs a backing device.
    pub fn requires_dev(&self) -> (r: bool)
        ensures
            r == self.requires_dev_spec(),
    {
        self.bits & FileSystemFlags::REQUIRES_DEV != 0
    }
}

/// The marker of a dentry at which another filesystem's root is bound.
#[derive(Clone, Copy, Debug, PartialEq, Eq, Structural)]
pub struct MountPoint {
    /// The flags that the binding was made with.
    pub mnt_flags: u32,
}

} // verus!
