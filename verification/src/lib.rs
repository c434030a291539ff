//! An in-memory filesystem adapter: inodes, a directory-entry tree, per-mount
//! superblocks and the filesystem type that mounts and unmounts them.

pub mod error;
pub mod names;
pub mod types;
pub mod superblock;
pub mod inode;
pub mod dentry;
pub mod fstype;
pub mod adapter;
pub mod provider;

pub use adapter::DbfsAdapter;
pub use provider::{DbfsProvider, DefaultDbfsProvider};
