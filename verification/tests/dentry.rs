use dbfs_vfs::dentry::{DbfsDentry, ParentLink};
use dbfs_vfs::error::FsError;
use dbfs_vfs::inode::DbfsInode;
use dbfs_vfs::superblock::DbfsSuperBlock;

fn root_inode() -> DbfsInode {
    DbfsInode::new_root(DbfsSuperBlock::new())
}

fn file_inode() -> DbfsInode {
    DbfsInode::new_hello_file(DbfsSuperBlock::new())
}

#[test]
fn root_dentry_is_slash_without_parent() {
    let root = DbfsDentry::root(root_inode());
    assert_eq!(root.name(), "/");
    assert_eq!(root.inode(), Ok(root_inode()));
    assert!(root.parent().is_none());
    assert!(root.mount_point().is_none());
    assert!(root.find("hello").is_none());
    assert!(root.find("/").is_none());
}

#[test]
fn insert_then_find_gives_the_child() {
    let mut root = DbfsDentry::root(root_inode());
    {
        let child = root.insert("hello", file_inode()).unwrap();
        assert_eq!(child.name(), "hello");
        assert_eq!(child.inode(), Ok(file_inode()));
        assert_eq!(child.parent(), Some(ParentLink { name: "/".to_string(), ino: 1 }));
        assert!(child.find("x").is_none());
    }
    let found = root.find("hello").unwrap();
    assert_eq!(found.name(), "hello");
    assert_eq!(found.inode(), Ok(file_inode()));
    assert!(root.find("hell").is_none());
    assert!(root.find("hello!").is_none());
}

#[test]
fn second_insert_fails_and_keeps_the_first() {
    let mut root = DbfsDentry::root(root_inode());
    root.insert("a", file_inode()).unwrap();
    let second = root.insert("a", root_inode());
    assert_eq!(second.err(), Some(FsError::AlreadyExists));
    let found = root.find("a").unwrap();
    assert_eq!(found.inode(), Ok(file_inode()));
}

#[test]
fn non_directory_finds_nothing_and_takes_no_child() {
    let mut d = DbfsDentry::root(file_inode());
    assert!(d.find("a").is_none());
    assert!(d.find("").is_none());
    assert_eq!(d.insert("a", file_inode()).err(), Some(FsError::NotDirectory));
    assert!(d.find("a").is_none());
    assert!(d.find_mut("a").is_none());
    assert!(d.remove("a").is_none());
}

#[test]
fn many_children_are_found_by_exact_name() {
    let mut root = DbfsDentry::root(root_inode());
    root.insert("b", file_inode()).unwrap();
    root.insert("a", root_inode()).unwrap();
    root.insert("c", file_inode()).unwrap();
    root.insert("", file_inode()).unwrap();
    assert_eq!(root.find("a").unwrap().inode(), Ok(root_inode()));
    assert_eq!(root.find("b").unwrap().inode(), Ok(file_inode()));
    assert_eq!(root.find("c").unwrap().name(), "c");
    assert_eq!(root.find("").unwrap().name(), "");
    assert!(root.find("d").is_none());
    assert!(root.find("A").is_none());
}

#[test]
fn remove_detaches_one_child() {
    let mut root = DbfsDentry::root(root_inode());
    root.insert("a", file_inode()).unwrap();
    root.insert("b", root_inode()).unwrap();
    root.insert("c", file_inode()).unwrap();
    let gone = root.remove("b").unwrap();
    assert_eq!(gone.name(), "b");
    assert_eq!(gone.inode(), Ok(root_inode()));
    assert_eq!(gone.parent().unwrap().name, "/");
    assert!(root.find("b").is_none());
    assert_eq!(root.find("a").unwrap().name(), "a");
    assert_eq!(root.find("c").unwrap().name(), "c");
    assert!(root.remove("b").is_none());
    assert!(root.remove("zzz").is_none());
    root.insert("b", file_inode()).unwrap();
    assert_eq!(root.find("b").unwrap().inode(), Ok(file_inode()));
}

#[test]
fn removed_subtree_keeps_its_children() {
    let mut root = DbfsDentry::root(root_inode());
    let dir = root.insert("dir", root_inode()).unwrap();
    dir.insert("inner", file_inode()).unwrap();
    let mut dir = root.remove("dir").unwrap();
    assert_eq!(dir.find("inner").unwrap().parent().unwrap().name, "dir");
    assert!(root.find("dir").is_none());
    assert!(root.find("inner").is_none());
    assert_eq!(dir.find("inner").unwrap().inode(), Ok(file_inode()));
    dir.insert("late", file_inode()).unwrap();
    assert_eq!(dir.find("late").unwrap().name(), "late");
    assert!(root.find("late").is_none());
}

#[test]
fn children_are_built_on_through_the_parent() {
    let mut root = DbfsDentry::root(root_inode());
    root.insert("a", root_inode()).unwrap().insert("b", root_inode()).unwrap().insert(
        "c",
        file_inode(),
    ).unwrap();
    let c = root.find("a").unwrap().find("b").unwrap().find("c").unwrap();
    assert_eq!(c.name(), "c");
    assert_eq!(c.inode(), Ok(file_inode()));
    assert_eq!(c.parent().unwrap().name, "b");
    assert!(root.find("b").is_none());
    assert!(root.find("c").is_none());

    let a = root.find_mut("a").unwrap();
    a.insert("x", file_inode()).unwrap();
    assert_eq!(a.insert("b", file_inode()).err(), Some(FsError::AlreadyExists));
    let gone = a.find_mut("b").unwrap().remove("c").unwrap();
    assert_eq!(gone.name(), "c");
    assert!(root.find("a").unwrap().find("b").unwrap().find("c").is_none());
    assert_eq!(root.find("a").unwrap().find("x").unwrap().inode(), Ok(file_inode()));
    assert!(root.find_mut("nope").is_none());
    assert!(root.find_mut("a").unwrap().find_mut("x").unwrap().find_mut("y").is_none());
}

#[test]
fn set_parent_replaces_the_link_only() {
    let mut root = DbfsDentry::root(root_inode());
    root.insert("a", file_inode()).unwrap();
    let mut other = DbfsDentry::root(root_inode());
    other.insert("x", file_inode()).unwrap();
    let host = other.remove("x").unwrap();
    assert_eq!(host.link(), ParentLink { name: "x".to_string(), ino: 2 });
    root.set_parent(host.link());
    assert_eq!(root.parent(), Some(ParentLink { name: "x".to_string(), ino: 2 }));
    assert_eq!(root.name(), "/");
    assert_eq!(root.inode(), Ok(root_inode()));
    assert_eq!(root.find("a").unwrap().name(), "a");
    assert_eq!(root.find("a").unwrap().parent(), Some(ParentLink { name: "/".to_string(), ino: 1 }));
    assert!(host.find("/").is_none());
    root.set_parent(ParentLink { name: "mnt".to_string(), ino: 77 });
    assert_eq!(root.parent(), Some(ParentLink { name: "mnt".to_string(), ino: 77 }));
}

#[test]
fn mount_point_binding_is_not_supported() {
    let mut root = DbfsDentry::root(root_inode());
    root.insert("mnt", root_inode()).unwrap();
    let sub = DbfsDentry::root(root_inode());
    assert_eq!(root.to_mount_point(sub, 0), Err(FsError::NotSupported));
    assert!(root.mount_point().is_none());
    root.clear_mount_point();
    assert!(root.mount_point().is_none());
    assert_eq!(root.find("mnt").unwrap().name(), "mnt");
    assert_eq!(root.name(), "/");
}
