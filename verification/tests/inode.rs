use dbfs_vfs::error::FsError;
use dbfs_vfs::inode::DbfsInode;
use dbfs_vfs::names::same_name;
use dbfs_vfs::superblock::DbfsSuperBlock;
use dbfs_vfs::types::{DirEntry, NodePerm, NodeType, SuperType, TimeSpec};

fn root() -> DbfsInode {
    DbfsInode::new_root(DbfsSuperBlock::new())
}

fn hello() -> DbfsInode {
    DbfsInode::new_hello_file(DbfsSuperBlock::new())
}

#[test]
fn root_inode_attributes() {
    let r = root();
    assert_eq!(r.fnode(), Ok(1));
    assert_eq!(r.ino(), 1);
    assert_eq!(r.inode_type(), NodeType::Dir);
    assert_eq!(r.size(), 4096);
    assert_eq!(r.nlink(), 2);
    assert_eq!(r.mode().bits(), 0o755);
    assert_eq!(r.uid(), 0);
    assert_eq!(r.gid(), 0);
    assert_eq!(r.blocks(), 1);
    assert_eq!(r.atime(), TimeSpec { sec: 0, nsec: 0 });
    assert_eq!(r.mtime(), TimeSpec { sec: 0, nsec: 0 });
    assert_eq!(r.ctime(), TimeSpec { sec: 0, nsec: 0 });
}

#[test]
fn hello_inode_attributes() {
    let f = hello();
    assert_eq!(f.fnode(), Ok(2));
    assert_eq!(f.ino(), 2);
    assert_eq!(f.inode_type(), NodeType::File);
    assert_eq!(f.size(), 12);
    assert_eq!(f.nlink(), 1);
    assert_eq!(f.mode().bits(), 0o644);
}

#[test]
fn perm_truncates_to_permission_bits() {
    assert_eq!(NodePerm::from_bits_truncate(0o7777).bits(), 0o777);
    assert_eq!(NodePerm::from_bits_truncate(0o644).bits(), 0o644);
    assert_eq!(NodePerm::from_bits_truncate(0o1000).bits(), 0);
}

#[test]
fn lookup_dots_resolve_to_root() {
    let r = root();
    assert_eq!(r.lookup(".").unwrap().fnode(), Ok(1));
    assert_eq!(r.lookup("..").unwrap().fnode(), Ok(1));
    assert_eq!(r.lookup("."), Ok(root()));
    assert_eq!(r.lookup(".."), Ok(root()));
}

#[test]
fn lookup_hello_gives_the_file() {
    let f = root().lookup("hello").unwrap();
    assert_eq!(f, hello());
    assert_eq!(f.fnode(), Ok(2));
    assert_eq!(f.size(), 12);
}

#[test]
fn lookup_unknown_name_is_no_entry() {
    assert_eq!(root().lookup("nope"), Err(FsError::NoEntry));
    assert_eq!(root().lookup(""), Err(FsError::NoEntry));
    assert_eq!(root().lookup("Hello"), Err(FsError::NoEntry));
    assert_eq!(root().lookup("..."), Err(FsError::NoEntry));
    assert_eq!(root().lookup("hello "), Err(FsError::NoEntry));
}

#[test]
fn lookup_in_a_file_is_not_directory() {
    assert_eq!(hello().lookup("hello"), Err(FsError::NotDirectory));
    assert_eq!(hello().lookup("."), Err(FsError::NotDirectory));
}

#[test]
fn readdir_lists_dots_then_hello() {
    let entries = root().readdir().unwrap();
    assert_eq!(
        entries,
        vec![
            DirEntry { ino: 1, offset: 0, type_: NodeType::Dir, name: ".".to_string() },
            DirEntry { ino: 1, offset: 1, type_: NodeType::Dir, name: "..".to_string() },
            DirEntry { ino: 2, offset: 2, type_: NodeType::File, name: "hello".to_string() },
        ]
    );
}

#[test]
fn readdir_of_a_file_is_not_directory() {
    assert_eq!(hello().readdir(), Err(FsError::NotDirectory));
}

#[test]
fn read_whole_file() {
    let mut buf = [0u8; 12];
    assert_eq!(hello().read_at(0, &mut buf), Ok(12));
    assert_eq!(&buf[..12], b"Hello, DBFS!");
}

#[test]
fn read_into_short_buffer_truncates() {
    let mut buf = [0u8; 4];
    assert_eq!(hello().read_at(0, &mut buf), Ok(4));
    assert_eq!(&buf[..4], b"Hell");
}

#[test]
fn read_into_long_buffer_leaves_the_rest() {
    let mut buf = [0xaau8; 16];
    assert_eq!(hello().read_at(0, &mut buf), Ok(12));
    assert_eq!(&buf[..12], b"Hello, DBFS!");
    assert_eq!(&buf[12..], &[0xaa, 0xaa, 0xaa, 0xaa]);
}

#[test]
fn read_from_an_offset() {
    let mut buf = [0u8; 12];
    assert_eq!(hello().read_at(7, &mut buf), Ok(5));
    assert_eq!(&buf[..5], b"DBFS!");
    assert_eq!(&buf[5..], &[0u8; 7]);
    let mut two = [0u8; 2];
    assert_eq!(hello().read_at(5, &mut two), Ok(2));
    assert_eq!(&two, b", ");
}

#[test]
fn read_at_or_past_the_end_reads_nothing() {
    let mut buf = [7u8; 3];
    assert_eq!(hello().read_at(12, &mut buf), Ok(0));
    assert_eq!(buf, [7u8; 3]);
    assert_eq!(hello().read_at(13, &mut buf), Ok(0));
    assert_eq!(hello().read_at(u64::MAX, &mut buf), Ok(0));
    assert_eq!(buf, [7u8; 3]);
}

#[test]
fn read_into_empty_buffer_reads_nothing() {
    let mut buf = [0u8; 0];
    assert_eq!(hello().read_at(0, &mut buf), Ok(0));
}

#[test]
fn read_of_a_directory_is_is_directory() {
    let mut buf = [9u8; 4];
    assert_eq!(root().read_at(0, &mut buf), Err(FsError::IsDirectory));
    assert_eq!(buf, [9u8; 4]);
}

#[test]
fn write_is_not_supported_and_keeps_size() {
    let mut f = hello();
    assert_eq!(f.write_at(b"more", 0), Err(FsError::NotSupported));
    assert_eq!(f.size(), 12);
    assert_eq!(f, hello());
    let mut r = root();
    assert_eq!(r.write_at(b"x", 4096), Err(FsError::NotSupported));
    assert_eq!(r.size(), 4096);
}

#[test]
fn namespace_changes_are_not_supported() {
    let mut r = root();
    let perm = NodePerm::from_bits_truncate(0o644);
    assert_eq!(r.create("a", NodeType::File, perm, None), Err(FsError::NotSupported));
    assert_eq!(r.link("a", &hello()), Err(FsError::NotSupported));
    assert_eq!(r.unlink("hello"), Err(FsError::NotSupported));
    assert_eq!(r.symlink("a", "hello"), Err(FsError::NotSupported));
    assert_eq!(r.mkdir("d", perm), Err(FsError::NotSupported));
    assert_eq!(r.rmdir("d"), Err(FsError::NotSupported));
    assert_eq!(r.rename_to("hello", &root(), "bye", 0), Err(FsError::NotSupported));
    assert_eq!(r, root());
    assert_eq!(r.lookup("a"), Err(FsError::NoEntry));
    assert_eq!(r.readdir().unwrap().len(), 3);
}

#[test]
fn flush_and_fsync_succeed() {
    assert_eq!(hello().flush(), Ok(()));
    assert_eq!(hello().fsync(true), Ok(()));
    assert_eq!(root().fsync(false), Ok(()));
}

#[test]
fn same_name_compares_character_for_character() {
    assert!(same_name("hello", "hello"));
    assert!(same_name("", ""));
    assert!(!same_name("hello", "hellp"));
    assert!(!same_name("hello", "hell"));
    assert!(!same_name("", "a"));
    assert!(same_name("d\u{e9}j\u{e0}", "d\u{e9}j\u{e0}"));
    assert!(!same_name("d\u{e9}", "de"));
}

#[test]
fn superblock_statistics() {
    let sb = DbfsSuperBlock::new();
    assert_eq!(sb.block_size(), 4096);
    let s = sb.stat_fs().unwrap();
    assert_eq!(s.f_bsize, 4096);
    assert_eq!(s.f_frsize, 4096);
    assert_eq!(s.f_blocks, 1024);
    assert_eq!(s.f_bfree, 512);
    assert_eq!(s.f_bavail, 512);
    assert_eq!(s.f_files, 100);
    assert_eq!(s.f_ffree, 50);
    assert_eq!(s.f_favail, 50);
    assert_eq!(s.f_fsid, 0x44424653);
    assert_eq!(s.f_flag, 0);
    assert_eq!(s.f_namemax, 255);
    assert_eq!(s.name, [0u8; 32]);
}

#[test]
fn superblock_queries() {
    let sb = DbfsSuperBlock::new();
    assert_eq!(sb.sync_fs(true), Ok(()));
    assert_eq!(sb.sync_fs(false), Ok(()));
    assert_eq!(sb.super_type(), SuperType::Other);
    assert_eq!(sb.root_inode(), Ok(root()));
    assert_eq!(sb.root_inode(), sb.root_inode());
    let fs = sb.fs_type();
    assert_eq!(fs.fs_name(), "dbfs");
    assert_eq!(fs.fs_flag().bits(), 0);
    assert_eq!(sb.db_path(), "/tmp/demo.db");
    let other = DbfsSuperBlock::with_db_path("/data/other.db".to_string());
    assert_eq!(other.db_path(), "/data/other.db");
    assert_eq!(other.block_size(), 4096);
    assert_ne!(other, sb);
    assert_eq!(other.clone(), other);
    assert_eq!(other.root_inode().unwrap().get_super_block(), other);
    assert_ne!(other.root_inode(), sb.root_inode());
    assert_eq!(root().clone(), root());
}
