//! Plain value types the reply contracts carry.
//!
//! Attribute and statistics values are read-only capability objects from the
//! reply layer's point of view: it moves them into the produced outcome and
//! never interprets them.  Cache lifetimes are carried as whole seconds plus
//! nanoseconds.

use vstd::prelude::*;

verus! {

/// A cache lifetime: how long the kernel may trust a cached attribute or
/// entry without re-querying.
#[derive(Clone, Copy, Debug, PartialEq, Eq, Structural)]
pub struct Ttl {
    /// Whole seconds of the lifetime.
    pub secs: u64,
    /// Nanoseconds beyond the whole seconds.
    pub nanos: u32,
}

impl Ttl {
    /// A lifetime of exactly `secs` whole seconds.
    pub fn from_secs(secs: u64) -> (r: Self)
        ensures
            r.secs == secs,
            r.nanos == 0,
    {
        Ttl { secs, nanos: 0 }
    }
}

/// The attributes of one inode, as handed to an entry, attribute or create
/// reply and forwarded verbatim to the transport encoder.
#[derive(Clone, Copy, Debug, PartialEq, Eq, Structural)]
pub struct FileAttr {
    /// The inode number.
    pub ino: u64,
    /// The file size in bytes.
    pub size: u64,
    /// The file mode, type bits included.
    pub mode: u32,
    /// The number of hard links.
    pub nlink: u32,
    /// The owning user id.
    pub uid: u32,
    /// The owning group id.
    pub gid: u32,
    /// The device number, for device nodes.
    pub rdev: u32,
    /// The preferred block size for I/O.
    pub blksize: u32,
    /// The number of allocated blocks.
    pub blocks: u64,
}

/// A filesystem-wide usage and capacity snapshot, as handed to a statistics
/// reply and forwarded verbatim to the transport encoder.
#[derive(Clone, Copy, Debug, PartialEq, Eq, Structural)]
pub struct FsStatistics {
    /// The block size in bytes.
    pub bsize: u32,
    /// The fragment size in bytes.
    pub frsize: u32,
    /// The total number of blocks.
    pub blocks: u64,
    /// The number of free blocks.
    pub bfree: u64,
    /// The number of blocks available to unprivileged users.
    pub bavail: u64,
    /// The total number of inodes.
    pub files: u64,
    /// The number of free inodes.
    pub ffree: u64,
    /// The maximum length of a file name.
    pub namelen: u32,
}

} // verus!
