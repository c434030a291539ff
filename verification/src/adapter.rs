//! The adapter: a filesystem type bound to one backing store.

use vstd::prelude::*;
use crate::dentry::DbfsDentry;
use crate::error::{FsError, FsResult};
use crate::fstype::{dentry_result_view, mount_outcome, DbfsFsType};
use crate::superblock::DbfsSuperBlock;
use crate::types::FileSystemFlags;

verus! {

/// A filesystem type that serves one backing store. Unlike the filesystem
/// type that it wraps, it declares that a mount needs a backing device.
/// The wrapped filesystem type serves the same backing store.
#[derive(Debug)]
pub struct DbfsAdapter {
    db_path: String,
    inner: DbfsFsType,
}

impl DbfsAdapter {
    #[verifier::type_invariant]
    spec fn inv(&self) -> bool {
        self.inner.db_path_spec() == self.db_path@
    }

    /// Where the backing store lies, of the adapter and of the filesystem
    /// type that it wraps.
    pub closed spec fn db_path_spec(&self) -> Seq<char> {
        self.db_path@
    }

    /// Whether a mount needs a backing device: it does.
    pub open spec fn requires_dev_spec(&self) -> bool {
        true
    }

    /// The adapter for the backing store at `db_path`.
    pub fn new(db_path: String) -> (r: DbfsAdapter)
        ensures
            r.db_path_spec() == db_path@,
    {
        let inner = DbfsFsType::new(db_path.clone());
        DbfsAdapter { db_path, inner }
    }

    /// Where the backing store lies.
    pub fn db_path(&self) -> (r: &str)
        ensures
            r@ == self.db_path_spec(),
    {
        self.db_path.as_str()
    }

    /// Mounts: see [`mount_outcome`]. Without a backing device the mount
    /// fails before anything is built; with one, the wrapped filesystem
    /// type mounts, and the superblock of the new tree names the backing
    /// store that the adapter and the wrapped filesystem type serve.
    pub fn mount<D>(&self, flags: u32, ab_mnt: &str, dev: Option<D>, data: &[u8]) -> (r: FsResult<
        DbfsDentry,
    >)
        ensures
            dentry_result_view(r) == mount_outcome(
                self.requires_dev_spec(),
                dev is Some,
                self.db_path_spec(),
            ),
            dev is None ==> r matches Err(FsError::InvalidArgument),
            r matches Ok(root) ==> root@.inode.sb.db_path == self.db_path_spec() && root@.wf(),
    {
        proof {
            use_type_invariant(self);
        }
        if self.fs_flag().requires_dev() && dev.is_none() {
            return Err(FsError::InvalidArgument);
        }
        self.inner.mount(flags, ab_mnt, dev, data)
    }

    /// Unmounts, as the wrapped filesystem type does: the superblock is
    /// synced, waiting for it, and what the sync gave is reported.
    pub fn kill_sb(&self, sb: DbfsSuperBlock) -> (r: FsResult<()>)
        ensures
            r == sb.sync_outcome(true),
            r == Ok::<(), FsError>(()),
    {
        self.inner.kill_sb(sb)
    }

    /// The capabilities that the adapter declares: a mount needs a backing
    /// device.
    pub fn fs_flag(&self) -> (r: FileSystemFlags)
        ensures
            r.bits_spec() == FileSystemFlags::REQUIRES_DEV,
            r.requires_dev_spec() == self.requires_dev_spec(),
    {
        assert(0x1u32 & 0x3fu32 == 0x1u32) by (bit_vector);
        assert(0x1u32 & 0x1u32 != 0u32) by (bit_vector);
        FileSystemFlags::from_bits_truncate(FileSystemFlags::REQUIRES_DEV)
    }

    /// The name under which the adapter is registered.
    pub fn fs_name(&self) -> (r: String)
        ensures
            r@ == "dbfs"@,
    {
        "dbfs".to_owned()
    }
}

} // verus!
