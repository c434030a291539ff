//! The filesystem type: it mounts and unmounts.
//!
//! A mount builds, in this order, the superblock, the root inode bound to
//! it, and the root dentry bound to that inode. A filesystem type that
//! declares that it needs a backing device refuses to mount without one,
//! before it builds anything.

use vstd::prelude::*;
use crate::dentry::{DbfsDentry, DentryView};
use crate::error::{FsError, FsResult};
use crate::inode::{DbfsInode, InodeView};
use crate::superblock::{DbfsSuperBlock, SuperBlockView};
use crate::types::FileSystemFlags;

verus! {

/// The root dentry of a fresh mount of the filesystem type whose backing
/// store lies at `db_path`: named `/`, without parent or children, denoting
/// the root inode of a superblock that names that backing store.
pub open spec fn mounted_root(db_path: Seq<char>) -> DentryView {
    DentryView::root(InodeView::root(SuperBlockView::of_mount(db_path)))
}

/// What a mount gives: a filesystem type that needs a backing device, and
/// gets none, fails for want of an argument; any other mount gives the root
/// of a fresh tree, whose superblock names the backing store of the
/// filesystem type that mounted.
pub open spec fn mount_outcome(requires_dev: bool, has_dev: bool, db_path: Seq<char>) -> Result<
    DentryView,
    FsError,
> {
    if requires_dev && !has_dev {
        Err(FsError::InvalidArgument)
    } else {
        Ok(mounted_root(db_path))
    }
}

/// The outcome of a mount, with the root dentry replaced by its view.
pub open spec fn dentry_result_view(r: FsResult<DbfsDentry>) -> Result<DentryView, FsError> {
    match r {
        Ok(d) => Ok(d@),
        Err(e) => Err(e),
    }
}

/// A mount that needs a backing device and gets none fails for want of an
/// argument; every other mount succeeds.
pub proof fn lemma_mount_needs_device(requires_dev: bool, has_dev: bool, db_path: Seq<char>)
    ensures
        requires_dev && !has_dev ==> mount_outcome(requires_dev, has_dev, db_path) == Err::<
            DentryView,
            FsError,
        >(FsError::InvalidArgument),
        !(requires_dev && !has_dev) ==> mount_outcome(requires_dev, has_dev, db_path) is Ok,
{
}

/// The superblock of a mounted tree names the backing store of the
/// filesystem type that mounted it, and no other.
pub proof fn lemma_mount_records_store(requires_dev: bool, has_dev: bool, db_path: Seq<char>)
    requires
        mount_outcome(requires_dev, has_dev, db_path) is Ok,
    ensures
        mount_outcome(requires_dev, has_dev, db_path)->Ok_0.inode.sb.db_path == db_path,
{
}

/// Two mounts share nothing, whether their backing stores differ or not.
/// Each starts as a root of its own that binds no name, whatever device it
/// was given, and each names its own backing store. When both then bind a
/// child under one name and the first detaches its child, the first finds
/// the name no more, and the second still finds the child that it bound.
pub proof fn lemma_mounts_are_independent(
    requires_dev: bool,
    first_has_dev: bool,
    first_db_path: Seq<char>,
    second_has_dev: bool,
    second_db_path: Seq<char>,
    name: Seq<char>,
    first_child: DentryView,
    second_child: DentryView,
)
    requires
        mount_outcome(requires_dev, first_has_dev, first_db_path) is Ok,
        mount_outcome(requires_dev, second_has_dev, second_db_path) is Ok,
    ensures
        ({
            let first = mount_outcome(requires_dev, first_has_dev, first_db_path)->Ok_0;
            let second = mount_outcome(requires_dev, second_has_dev, second_db_path)->Ok_0;
            &&& first == mounted_root(first_db_path) && second == mounted_root(second_db_path)
            &&& first.inode.sb.db_path == first_db_path
            &&& second.inode.sb.db_path == second_db_path
            &&& first.find(name) is None && second.find(name) is None
            &&& first.with_child(name, first_child).without_child(name).find(name) is None
            &&& second.with_child(name, second_child).find(name) == Some(second_child)
        }),
{
}

/// The filesystem type. One instance mounts any number of times, and each
/// mount gets a tree of its own.
#[derive(Debug)]
pub struct DbfsFsType {
    db_path: String,
}

impl DbfsFsType {
    /// Where the backing store lies.
    pub closed spec fn db_path_spec(&self) -> Seq<char> {
        self.db_path@
    }

    /// Whether a mount needs a backing device: it does not.
    pub open spec fn requires_dev_spec(&self) -> bool {
        false
    }

    /// The filesystem type whose backing store lies at `db_path`.
    pub fn new(db_path: String) -> (r: DbfsFsType)
        ensures
            r.db_path_spec() == db_path@,
    {
        DbfsFsType { db_path }
    }

    /// Mounts: see [`mount_outcome`]. The superblock of the new tree names
    /// the backing store of this filesystem type. The flags, the mount
    /// path and the options are not looked at; of the device, which is an
    /// inode of whatever filesystem serves it, only whether there is one.
    pub fn mount<D>(&self, flags: u32, ab_mnt: &str, dev: Option<D>, data: &[u8]) -> (r: FsResult<
        DbfsDentry,
    >)
        ensures
            dentry_result_view(r) == mount_outcome(
                self.requires_dev_spec(),
                dev is Some,
                self.db_path_spec(),
            ),
            r matches Ok(root) ==> root@.inode.sb.db_path == self.db_path_spec() && root@.wf(),
    {
        if self.fs_flag().requires_dev() && dev.is_none() {
            return Err(FsError::InvalidArgument);
        }
        let sb = DbfsSuperBlock::with_db_path(self.db_path.clone());
        let root_inode = DbfsInode::new_root(sb);
        let root_dentry = DbfsDentry::root(root_inode);
        Ok(root_dentry)
    }

    /// Unmounts: syncs the superblock, waiting for it, and releases it.
    /// What the sync gave is what the unmount reports: a failed sync is
    /// handed to the caller and nothing is tried again. No sync of this
    /// filesystem fails, so the unmount succeeds.
    pub fn kill_sb(&self, sb: DbfsSuperBlock) -> (r: FsResult<()>)
        ensures
            r == sb.sync_outcome(true),
            r == Ok::<(), FsError>(()),
    {
        sb.sync_fs(true)
    }

    /// The capabilities that this filesystem type declares: none.
    pub fn fs_flag(&self) -> (r: FileSystemFlags)
        ensures
            r.bits_spec() == 0,
            r.requires_dev_spec() == self.requires_dev_spec(),
    {
        FileSystemFlags::empty()
    }

    /// The name under which this filesystem type is registered.
    pub fn fs_name(&self) -> (r: String)
        ensures
            r@ == "dbfs"@,
    {
        "dbfs".to_owned()
    }
}

} // verus!
