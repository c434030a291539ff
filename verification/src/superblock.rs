//! Per-mount metadata: the entry point to a mount's root object.
//!
//! A superblock remembers where the backing store of the filesystem type
//! lies that mounted it, and so can name that filesystem type again.

use vstd::prelude::*;
use crate::error::FsResult;
use crate::fstype::DbfsFsType;
use crate::inode::{DbfsInode, InodeView};
use crate::types::{FsStat, SuperType};

verus! {

/// What a superblock is, as plain mathematical values.
pub struct SuperBlockView {
    /// The size of a block, in bytes.
    pub block_size: nat,
    /// Where the backing store lies of the filesystem type that owns the
    /// mount.
    pub db_path: Seq<char>,
}

impl SuperBlockView {
    /// The superblock of a mount of the filesystem type whose backing
    /// store lies at `db_path`: its blocks are 4096 bytes.
    pub open spec fn of_mount(db_path: Seq<char>) -> SuperBlockView {
        SuperBlockView { block_size: 4096, db_path }
    }
}

/// The superblock of one mount.
#[derive(Debug, PartialEq, Eq)]
pub struct DbfsSuperBlock {
    block_size: u64,
    db_path: String,
}

impl View for DbfsSuperBlock {
    type V = SuperBlockView;

    closed spec fn view(&self) -> SuperBlockView {
        SuperBlockView { block_size: self.block_size as nat, db_path: self.db_path@ }
    }
}

impl Clone for DbfsSuperBlock {
    /// A second handle on the same mount's metadata.
    fn clone(&self) -> (r: DbfsSuperBlock)
        ensures
            r == *self,
    {
        DbfsSuperBlock { block_size: self.block_size, db_path: self.db_path.clone() }
    }
}

/// Whether `s` is the snapshot that a healthy mount reports: its block and
/// file-slot counts, its identifier, and an all-zero label.
pub open spec fn is_mount_statistics(s: FsStat) -> bool {
    &&& s.f_bsize == 4096
    &&& s.f_frsize == 4096
    &&& s.f_blocks == 1024
    &&& s.f_bfree == 512
    &&& s.f_bavail == 512
    &&& s.f_files == 100
    &&& s.f_ffree == 50
    &&& s.f_favail == 50
    &&& s.f_fsid == 0x44424653
    &&& s.f_flag == 0
    &&& s.f_namemax == 255
    &&& forall|i: int| 0 <= i < 32 ==> s.name[i] == 0
}

impl DbfsSuperBlock {
    /// The superblock of a mount of the filesystem type whose backing
    /// store lies at `/tmp/demo.db`.
    pub fn new() -> (r: DbfsSuperBlock)
        ensures
            r@ == SuperBlockView::of_mount("/tmp/demo.db"@),
    {
        DbfsSuperBlock { block_size: 4096, db_path: "/tmp/demo.db".to_owned() }
    }

    /// The superblock of a mount of the filesystem type whose backing
    /// store lies at `db_path`.
    pub fn with_db_path(db_path: String) -> (r: DbfsSuperBlock)
        ensures
            r@ == SuperBlockView::of_mount(db_path@),
    {
        DbfsSuperBlock { block_size: 4096, db_path }
    }

    /// The size of a block, in bytes.
    pub fn block_size(&self) -> (r: u64)
        ensures
            r == self@.block_size,
    {
        self.block_size
    }

    /// Where the backing store lies of the filesystem type that owns the
    /// mount.
    pub fn db_path(&self) -> (r: &str)
        ensures
            r@ == self@.db_path,
    {
        self.db_path.as_str()
    }

    /// What a sync of this superblock gives, whether or not the caller
    /// waits until the backing store has confirmed it. Nothing is ever
    /// buffered here, so there is nothing that the backing store could
    /// fail to take.
    pub closed spec fn sync_outcome(&self, wait: bool) -> FsResult<()> {
        Ok(())
    }

    /// A sync succeeds on every superblock, waiting or not.
    pub proof fn lemma_sync_succeeds(self, wait: bool)
        ensures
            self.sync_outcome(wait) == Ok::<(), crate::error::FsError>(()),
    {
    }

    /// Flushes what is buffered to the backing store: see
    /// [`DbfsSuperBlock::sync_outcome`]. Nothing is ever buffered here, so
    /// this succeeds whether or not the caller waits.
    pub fn sync_fs(&self, wait: bool) -> (r: FsResult<()>)
        ensures
            r == self.sync_outcome(wait),
            r == Ok::<(), crate::error::FsError>(()),
    {
        Ok(())
    }

    /// A point-in-time snapshot of the mount's aggregate numbers.
    pub fn stat_fs(&self) -> (r: FsResult<FsStat>)
        ensures
            r matches Ok(s) && is_mount_statistics(s),
    {
        Ok(
            FsStat {
                f_bsize: 4096,
                f_frsize: 4096,
                f_blocks: 1024,
                f_bfree: 512,
                f_bavail: 512,
                f_files: 100,
                f_ffree: 50,
                f_favail: 50,
                f_fsid: 0x44424653,
                f_flag: 0,
                f_namemax: 255,
                name: [0; 32],
            },
        )
    }

    /// What backs this superblock.
    pub fn super_type(&self) -> (r: SuperType)
        ensures
            r == SuperType::Other,
    {
        SuperType::Other
    }

    /// The filesystem type that owns the mount: the one whose backing
    /// store lies where this superblock says. Neither the superblock nor
    /// any filesystem type changes by the question.
    pub fn fs_type(&self) -> (r: DbfsFsType)
        ensures
            r.db_path_spec() == self@.db_path,
    {
        DbfsFsType::new(self.db_path.clone())
    }

    /// The root inode of the mount. Every call returns an equal inode.
    pub fn root_inode(&self) -> (r: FsResult<DbfsInode>)
        ensures
            r matches Ok(root) && root@ == InodeView::root(self@),
    {
        Ok(DbfsInode::new_root(self.clone()))
    }
}

} // verus!
