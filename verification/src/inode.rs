//! Inodes: the identity and attributes of a filesystem object.

use vstd::prelude::*;
use vstd::string::StringSliceAdditionalSpecFns;
use vstd::string::is_ascii_spec_bytes;
use crate::error::{FsError, FsResult};
use crate::names::same_name;
use crate::superblock::{DbfsSuperBlock, SuperBlockView};
use crate::types::{DirEntry, NodePerm, NodeType, TimeSpec};

verus! {

/// What an inode is, as plain mathematical values.
pub struct InodeView {
    /// The superblock of the mount that the inode belongs to.
    pub sb: SuperBlockView,
    /// The inode number.
    pub ino: nat,
    /// What kind of object the inode is.
    pub node_type: NodeType,
    /// The size in bytes.
    pub size: nat,
    /// The number of names that denote the inode.
    pub nlink: nat,
}

impl InodeView {
    /// The root directory of the mount with superblock `sb`.
    pub open spec fn root(sb: SuperBlockView) -> InodeView {
        InodeView { sb, ino: 1, node_type: NodeType::Dir, size: 4096, nlink: 2 }
    }

    /// The one regular file of the mount with superblock `sb`.
    pub open spec fn hello_file(sb: SuperBlockView) -> InodeView {
        InodeView { sb, ino: 2, node_type: NodeType::File, size: 12, nlink: 1 }
    }

    /// Whether the inode is a directory.
    pub open spec fn is_dir(self) -> bool {
        self.node_type == NodeType::Dir
    }

    /// Whether the inode is a regular file.
    pub open spec fn is_file(self) -> bool {
        self.node_type == NodeType::File
    }

    /// What resolving the path segment `name` in this inode gives: the one
    /// file under its name, the root under `.` and `..`, and a failure for
    /// every other name and for every inode that is no directory.
    pub open spec fn lookup(self, name: Seq<char>) -> Result<InodeView, FsError> {
        if !self.is_dir() {
            Err(FsError::NotDirectory)
        } else if name == "hello"@ {
            Ok(InodeView::hello_file(self.sb))
        } else if name == "."@ || name == ".."@ {
            Ok(InodeView::root(self.sb))
        } else {
            Err(FsError::NoEntry)
        }
    }
}

/// The bytes of the one regular file: the text `Hello, DBFS!`.
pub open spec fn file_content() -> Seq<u8> {
    seq![72u8, 101u8, 108u8, 108u8, 111u8, 44u8, 32u8, 68u8, 66u8, 70u8, 83u8, 33u8]
}

/// What is left of the file from `offset` on; nothing, if `offset` is at
/// or past its end.
pub open spec fn bytes_from(offset: nat) -> Seq<u8> {
    if offset >= file_content().len() {
        Seq::empty()
    } else {
        file_content().skip(offset as int)
    }
}

/// How many bytes a read at `offset` into a buffer of `buf_len` bytes
/// copies: what is left of the file from `offset` on, or the whole buffer
/// if that is less.
pub open spec fn read_len(offset: nat, buf_len: nat) -> nat {
    if buf_len <= bytes_from(offset).len() {
        buf_len
    } else {
        bytes_from(offset).len()
    }
}

/// The buffer after a read at `offset`: the bytes of the file from `offset`
/// on at its start, and behind them what the buffer held before.
pub open spec fn read_into(offset: nat, buf: Seq<u8>) -> Seq<u8> {
    let n = read_len(offset, buf.len());
    bytes_from(offset).take(n as int) + buf.skip(n as int)
}

/// One line of a directory listing, as plain mathematical values.
pub struct DirEntryView {
    pub ino: nat,
    pub offset: nat,
    pub node_type: NodeType,
    pub name: Seq<char>,
}

impl View for DirEntry {
    type V = DirEntryView;

    open spec fn view(&self) -> DirEntryView {
        DirEntryView {
            ino: self.ino as nat,
            offset: self.offset as nat,
            node_type: self.type_,
            name: self.name@,
        }
    }
}

/// The listing of a directory: the directory itself, its parent, then the
/// one file, numbered from 0 in that order. Both dots denote the root.
pub open spec fn root_listing() -> Seq<DirEntryView> {
    seq![
        DirEntryView { ino: 1, offset: 0, node_type: NodeType::Dir, name: "."@ },
        DirEntryView { ino: 1, offset: 1, node_type: NodeType::Dir, name: ".."@ },
        DirEntryView { ino: 2, offset: 2, node_type: NodeType::File, name: "hello"@ },
    ]
}

/// In every directory both `.` and `..` resolve to the root inode of the
/// mount, and `hello` to its one file.
pub proof fn lemma_dots_resolve_to_root(dir: InodeView)
    requires
        dir.is_dir(),
    ensures
        dir.lookup("."@) == Ok::<InodeView, FsError>(InodeView::root(dir.sb)),
        dir.lookup(".."@) == Ok::<InodeView, FsError>(InodeView::root(dir.sb)),
        dir.lookup("hello"@) == Ok::<InodeView, FsError>(InodeView::hello_file(dir.sb)),
        InodeView::root(dir.sb).ino == 1,
{
    reveal_strlit(".");
    reveal_strlit("..");
    reveal_strlit("hello");
    assert("."@.len() == 1 && ".."@.len() == 2 && "hello"@.len() == 5);
}

/// The bytes of the literal `Hello, DBFS!` are those of `file_content`.
pub proof fn lemma_file_content_is_literal()
    ensures
        "Hello, DBFS!".spec_bytes() == file_content(),
{
    reveal_strlit("Hello, DBFS!");
    let s = "Hello, DBFS!";
    assert(s@.len() == 12);
    assert(vstd::string::is_ascii(s)) by {
        assert forall|i: int| 0 <= i < s@.len() implies (s@[i] as u32) < 128 by {}
    }
    is_ascii_spec_bytes(s);
    assert(s.spec_bytes() =~= file_content());
}

/// One filesystem object.
#[derive(Debug, PartialEq, Eq)]
pub struct DbfsInode {
    sb: DbfsSuperBlock,
    ino: usize,
    inode_type: NodeType,
    size: usize,
    nlink: usize,
}

impl View for DbfsInode {
    type V = InodeView;

    closed spec fn view(&self) -> InodeView {
        InodeView {
            sb: self.sb@,
            ino: self.ino as nat,
            node_type: self.inode_type,
            size: self.size as nat,
            nlink: self.nlink as nat,
        }
    }
}

impl Clone for DbfsInode {
    /// A second handle on the same object.
    fn clone(&self) -> (r: DbfsInode)
        ensures
            r == *self,
    {
        DbfsInode {
            sb: self.sb.clone(),
            ino: self.ino,
            inode_type: self.inode_type,
            size: self.size,
            nlink: self.nlink,
        }
    }
}

impl DbfsInode {
    /// The root directory of the mount with superblock `sb`.
    pub fn new_root(sb: DbfsSuperBlock) -> (r: DbfsInode)
        ensures
            r@ == InodeView::root(sb@),
    {
        DbfsInode { sb, ino: 1, inode_type: NodeType::Dir, size: 4096, nlink: 2 }
    }

    /// The one regular file of the mount with superblock `sb`.
    pub fn new_hello_file(sb: DbfsSuperBlock) -> (r: DbfsInode)
        ensures
            r@ == InodeView::hello_file(sb@),
    {
        DbfsInode { sb, ino: 2, inode_type: NodeType::File, size: 12, nlink: 1 }
    }

    /// The time that every timestamp of an inode reports.
    fn current_time() -> (r: TimeSpec)
        ensures
            r == (TimeSpec { sec: 0, nsec: 0 }),
    {
        TimeSpec::default()
    }

    /// The superblock of the mount that the inode belongs to.
    pub fn get_super_block(&self) -> (r: DbfsSuperBlock)
        ensures
            r@ == self@.sb,
    {
        self.sb.clone()
    }

    /// What kind of object the inode is.
    pub fn inode_type(&self) -> (r: NodeType)
        ensures
            r == self@.node_type,
    {
        self.inode_type
    }

    /// The permission bits: `rwxr-xr-x` for a directory, `rw-r--r--` for
    /// anything else.
    pub fn mode(&self) -> (r: NodePerm)
        ensures
            r.bits_spec() == (if self@.is_dir() {
                0o755u16
            } else {
                0o644u16
            }),
    {
        assert(0o755u16 & 0o777u16 == 0o755u16) by (bit_vector);
        assert(0o644u16 & 0o777u16 == 0o644u16) by (bit_vector);
        if self.inode_type == NodeType::Dir {
            NodePerm::from_bits_truncate(0o755)
        } else {
            NodePerm::from_bits_truncate(0o644)
        }
    }

    /// The owner: always the superuser.
    pub fn uid(&self) -> (r: usize)
        ensures
            r == 0,
    {
        0
    }

    /// The group: always the superuser's.
    pub fn gid(&self) -> (r: usize)
        ensures
            r == 0,
    {
        0
    }

    /// The size in bytes.
    pub fn size(&self) -> (r: usize)
        ensures
            r == self@.size,
    {
        self.size
    }

    /// The number of blocks that the inode occupies: always one.
    pub fn blocks(&self) -> (r: u64)
        ensures
            r == 1,
    {
        1
    }

    /// The number of names that denote the inode.
    pub fn nlink(&self) -> (r: usize)
        ensures
            r == self@.nlink,
    {
        self.nlink
    }

    /// When the inode was last read.
    pub fn atime(&self) -> (r: TimeSpec)
        ensures
            r == (TimeSpec { sec: 0, nsec: 0 }),
    {
        Self::current_time()
    }

    /// When the content was last changed.
    pub fn mtime(&self) -> (r: TimeSpec)
        ensures
            r == (TimeSpec { sec: 0, nsec: 0 }),
    {
        Self::current_time()
    }

    /// When the attributes were last changed.
    pub fn ctime(&self) -> (r: TimeSpec)
        ensures
            r == (TimeSpec { sec: 0, nsec: 0 }),
    {
        Self::current_time()
    }

    /// The inode number.
    pub fn ino(&self) -> (r: u64)
        ensures
            r as nat == self@.ino,
    {
        self.ino as u64
    }

    /// The inode number, as the answer of the backing store.
    pub fn fnode(&self) -> (r: FsResult<u64>)
        ensures
            r matches Ok(n) && n as nat == self@.ino,
    {
        Ok(self.ino as u64)
    }

    /// Resolves one path segment within this inode: see
    /// [`InodeView::lookup`].
    pub fn lookup(&self, name: &str) -> (r: FsResult<DbfsInode>)
        ensures
            inode_result_view(r) == self@.lookup(name@),
    {
        if self.inode_type != NodeType::Dir {
            return Err(FsError::NotDirectory);
        }
        if same_name(name, "hello") {
            return Ok(Self::new_hello_file(self.sb.clone()));
        }
        if same_name(name, ".") || same_name(name, "..") {
            return self.sb.root_inode();
        }
        Err(FsError::NoEntry)
    }

    /// Creating an object is not supported: the inode stays as it was.
    pub fn create(
        &mut self,
        name: &str,
        ty: NodeType,
        perm: NodePerm,
        rdev: Option<u64>,
    ) -> (r: FsResult<DbfsInode>)
        ensures
            r == Err::<DbfsInode, FsError>(FsError::NotSupported),
            *final(self) == *old(self),
    {
        Err(FsError::NotSupported)
    }

    /// Adding a hard link is not supported: the inode stays as it was.
    pub fn link(&mut self, name: &str, src: &DbfsInode) -> (r: FsResult<DbfsInode>)
        ensures
            r == Err::<DbfsInode, FsError>(FsError::NotSupported),
            *final(self) == *old(self),
    {
        Err(FsError::NotSupported)
    }

    /// Removing a name is not supported: the inode stays as it was.
    pub fn unlink(&mut self, name: &str) -> (r: FsResult<()>)
        ensures
            r == Err::<(), FsError>(FsError::NotSupported),
            *final(self) == *old(self),
    {
        Err(FsError::NotSupported)
    }

    /// Creating a symbolic link is not supported: the inode stays as it
    /// was.
    pub fn symlink(&mut self, name: &str, target: &str) -> (r: FsResult<DbfsInode>)
        ensures
            r == Err::<DbfsInode, FsError>(FsError::NotSupported),
            *final(self) == *old(self),
    {
        Err(FsError::NotSupported)
    }

    /// Creating a directory is not supported: the inode stays as it was.
    pub fn mkdir(&mut self, name: &str, perm: NodePerm) -> (r: FsResult<DbfsInode>)
        ensures
            r == Err::<DbfsInode, FsError>(FsError::NotSupported),
            *final(self) == *old(self),
    {
        Err(FsError::NotSupported)
    }

    /// Removing a directory is not supported: the inode stays as it was.
    pub fn rmdir(&mut self, name: &str) -> (r: FsResult<()>)
        ensures
            r == Err::<(), FsError>(FsError::NotSupported),
            *final(self) == *old(self),
    {
        Err(FsError::NotSupported)
    }

    /// Lists a directory: see [`root_listing`]. The listing is a snapshot.
    /// Anything that is no directory cannot be listed.
    pub fn readdir(&self) -> (r: FsResult<Vec<DirEntry>>)
        ensures
            match r {
                Ok(entries) => self@.is_dir() && listing_view(entries@) == root_listing(),
                Err(e) => !self@.is_dir() && e == FsError::NotDirectory,
            },
    {
        if self.inode_type != NodeType::Dir {
            return Err(FsError::NotDirectory);
        }
        let mut entries: Vec<DirEntry> = Vec::new();
        entries.push(DirEntry { ino: 1, offset: 0, type_: NodeType::Dir, name: ".".to_owned() });
        entries.push(DirEntry { ino: 1, offset: 1, type_: NodeType::Dir, name: "..".to_owned() });
        entries.push(
            DirEntry { ino: 2, offset: 2, type_: NodeType::File, name: "hello".to_owned() },
        );
        assert(listing_view(entries@) =~= root_listing());
        Ok(entries)
    }

    /// Renaming is not supported: the inode stays as it was.
    pub fn rename_to(
        &mut self,
        old_name: &str,
        new_parent: &DbfsInode,
        new_name: &str,
        flags: u32,
    ) -> (r: FsResult<()>)
        ensures
            r == Err::<(), FsError>(FsError::NotSupported),
            *final(self) == *old(self),
    {
        Err(FsError::NotSupported)
    }

    /// Reads the file from `offset` on into `buf`: see [`read_into`]. A
    /// buffer that is shorter than what is left gets its fill, and that is
    /// no failure. Only a regular file can be read.
    pub fn read_at(&self, offset: u64, buf: &mut [u8]) -> (r: FsResult<usize>)
        ensures
            match r {
                Ok(n) => {
                    &&& self@.is_file()
                    &&& n == read_len(offset as nat, old(buf)@.len())
                    &&& final(buf)@ == read_into(offset as nat, old(buf)@)
                },
                Err(e) => {
                    &&& !self@.is_file()
                    &&& e == FsError::IsDirectory
                    &&& final(buf)@ == old(buf)@
                },
            },
    {
        if self.inode_type != NodeType::File {
            return Err(FsError::IsDirectory);
        }
        let content = "Hello, DBFS!".as_bytes();
        proof {
            lemma_file_content_is_literal();
        }
        let len: usize = content.len();
        let start: usize = if offset >= len as u64 {
            len
        } else {
            offset as usize
        };
        let left: usize = len - start;
        let n: usize = if buf.len() <= left {
            buf.len()
        } else {
            left
        };
        let mut i: usize = 0;
        while i < n
            invariant
                i <= n,
                start + n <= len,
                len == content@.len(),
                content@ == file_content(),
                n <= buf@.len(),
                buf@.len() == old(buf)@.len(),
                forall|k: int| 0 <= k < i ==> buf@[k] == content@[start + k],
                forall|k: int| i <= k < buf@.len() ==> buf@[k] == old(buf)@[k],
            decreases n - i,
        {
            buf[i] = content[start + i];
            i += 1;
        }
        assert(bytes_from(offset as nat) =~= content@.skip(start as int));
        assert(buf@ =~= read_into(offset as nat, old(buf)@));
        Ok(n)
    }

    /// Writing is not supported: the inode, and with it its size, stays as
    /// it was.
    pub fn write_at(&mut self, buf: &[u8], offset: u64) -> (r: FsResult<usize>)
        ensures
            r == Err::<usize, FsError>(FsError::NotSupported),
            *final(self) == *old(self),
            final(self)@.size == old(self)@.size,
    {
        Err(FsError::NotSupported)
    }

    /// Nothing is ever buffered, so there is nothing to flush.
    pub fn flush(&self) -> (r: FsResult<()>)
        ensures
            r == Ok::<(), FsError>(()),
    {
        Ok(())
    }

    /// Nothing is ever buffered, so there is nothing to make durable.
    pub fn fsync(&self, datasync: bool) -> (r: FsResult<()>)
        ensures
            r == Ok::<(), FsError>(()),
    {
        Ok(())
    }
}

/// The outcome of an operation that hands out an inode, with the inode
/// replaced by its view.
pub open spec fn inode_result_view(r: FsResult<DbfsInode>) -> Result<InodeView, FsError> {
    match r {
        Ok(inode) => Ok(inode@),
        Err(e) => Err(e),
    }
}

/// A directory listing with each line replaced by its view.
pub open spec fn listing_view(entries: Seq<DirEntry>) -> Seq<DirEntryView> {
    entries.map_values(|e: DirEntry| e@)
}

} // verus!
