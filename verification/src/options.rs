//! Forward-compatible option objects carried alongside successful replies.
//!
//! Both option objects are built from their default value plus explicit
//! field overrides, never positionally, so a field added later does not
//! break existing construction sites.  The reserved marker field enforces
//! that style: it cannot be named outside this crate.

use vstd::prelude::*;
use crate::types::Ttl;

verus! {

/// A reserved extensibility marker.
///
/// It carries no data; its only purpose is to keep option objects and
/// directory records from being constructed positionally outside this
/// crate, so fields can be added later without breaking callers.
#[derive(Clone, Copy, Debug)]
pub struct NonExhaustive(());

impl NonExhaustive {
    /// The marker value; construction stays within this crate.
    pub(crate) fn init() -> (r: Self) {
        NonExhaustive(())
    }
}

/// The option values for an entry reply.
#[derive(Clone, Copy, Debug)]
pub struct EntryOptions {
    /// The inode number of this entry.
    ///
    /// If this value is zero, the entry is *negative*: a confirmed absence,
    /// cacheable for `ttl_entry`.  A not-found error communicates the same
    /// outcome without caching.
    pub ino: u64,

    /// The validity timeout for the inode attributes.
    pub ttl_attr: Option<Ttl>,

    /// The validity timeout for the name.
    pub ttl_entry: Option<Ttl>,

    /// The generation of this entry.
    ///
    /// Distinguishes the inode from a past one when the filesystem reuses
    /// inode numbers: the pair of inode number and generation must stay
    /// unique for the lifetime of the filesystem.
    pub generation: u64,

    pub __non_exhaustive: NonExhaustive,
}

impl Default for EntryOptions {
    /// The default entry options: a negative entry with no cache lifetimes
    /// and generation zero.
    fn default() -> (r: Self)
        ensures
            r.ino == 0,
            r.ttl_attr is None,
            r.ttl_entry is None,
            r.generation == 0,
    {
        EntryOptions {
            ino: 0,
            ttl_attr: None,
            ttl_entry: None,
            generation: 0,
            __non_exhaustive: NonExhaustive::init(),
        }
    }
}

/// The option values for an open reply: four independent capability flags.
#[derive(Clone, Copy, Debug)]
pub struct OpenOptions {
    /// Direct I/O is used on this file.
    pub direct_io: bool,

    /// File data already cached in the kernel need not be invalidated.
    pub keep_cache: bool,

    /// The opened file is not seekable.
    pub nonseekable: bool,

    /// Entries returned by directory reads may be cached.
    ///
    /// Meaningful only for directory-open replies.
    pub cache_dir: bool,

    pub __non_exhaustive: NonExhaustive,
}

impl OpenOptions {
    /// The open-flags bitmask the transport encoder is fed: one bit per
    /// flag, and no bit set that its flag does not ask for.
    pub open spec fn flags_spec(self) -> u32 {
        ((if self.direct_io { 1u32 } else { 0u32 })
            + (if self.keep_cache { 2u32 } else { 0u32 })
            + (if self.nonseekable { 4u32 } else { 0u32 })
            + (if self.cache_dir { 8u32 } else { 0u32 })) as u32
    }

    /// Encode the four flags as the open-flags bitmask.
    pub fn flags(&self) -> (r: u32)
        ensures
            r == self.flags_spec(),
    {
        let mut r: u32 = 0;
        if self.direct_io {
            r = r + 1;
        }
        if self.keep_cache {
            r = r + 2;
        }
        if self.nonseekable {
            r = r + 4;
        }
        if self.cache_dir {
            r = r + 8;
        }
        r
    }
}

impl Default for OpenOptions {
    /// The default open options: all four flags false.
    fn default() -> (r: Self)
        ensures
            !r.direct_io,
            !r.keep_cache,
            !r.nonseekable,
            !r.cache_dir,
    {
        OpenOptions {
            direct_io: false,
            keep_cache: false,
            nonseekable: false,
            cache_dir: false,
            __non_exhaustive: NonExhaustive::init(),
        }
    }
}

} // verus!
