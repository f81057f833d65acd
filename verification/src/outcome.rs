//! The produced outcome of a terminal reply call.
//!
//! An outcome is what the (out-of-scope) transport encoder is fed: the
//! identifier of the request it answers and the payload to put on the wire.
//! Every terminal method of every reply contract returns one on success.

use vstd::prelude::*;
use crate::dir::{DirRecord, DirPlusRecord};
use crate::types::{FileAttr, FsStatistics, Ttl};

verus! {

/// What one successful reply puts on the wire, one variant per operation
/// category.
#[derive(Debug)]
pub enum Payload {
    /// A lookup/create-style entry: inode, generation and cache lifetimes
    /// as given; `ino == 0` models a cacheable negative lookup.
    Entry {
        /// The inode number, zero for a negative entry.
        ino: u64,
        /// The generation paired with the inode number.
        generation: u64,
        /// The validity timeout for the attributes.
        ttl_attr: Option<Ttl>,
        /// The validity timeout for the name.
        ttl_entry: Option<Ttl>,
        /// The attribute block.
        attr: FileAttr,
    },
    /// A plain attribute reply.
    Attr {
        /// The attribute block.
        attr: FileAttr,
        /// The validity timeout for the attributes.
        ttl: Option<Ttl>,
    },
    /// A bare acknowledgement with no payload.
    Ack,
    /// A read-style reply carrying raw bytes; the length is the size
    /// actually produced, independent of the size requested.
    Data {
        /// The bytes produced.
        data: Vec<u8>,
    },
    /// A file or directory opened: the opaque handle and the open-flags
    /// bitmask.
    Open {
        /// The handle, opaque to this layer.
        fh: u64,
        /// One bit per open option.
        flags: u32,
    },
    /// The number of bytes a write accepted; a short write is valid.
    Write {
        /// The accepted byte count.
        size: u32,
    },
    /// A filesystem-wide usage and capacity snapshot.
    Statfs {
        /// The statistics block.
        stat: FsStatistics,
    },
    /// The answer to a size query for an extended attribute: the needed
    /// size only, no bytes.
    XattrSize {
        /// The size the full value needs.
        size: u32,
    },
    /// The answer to a data query for an extended attribute: the actual
    /// bytes.
    XattrData {
        /// The attribute value.
        data: Vec<u8>,
    },
    /// A record-lock query result.
    Lk {
        /// The lock type.
        typ: u32,
        /// The first byte of the locked range.
        start: u64,
        /// The last byte of the locked range.
        end: u64,
        /// The process holding the lock.
        pid: u32,
    },
    /// Entry and open semantics combined atomically for a create-and-open
    /// request.
    Create {
        /// The inode number, zero for a negative entry.
        ino: u64,
        /// The generation paired with the inode number.
        generation: u64,
        /// The validity timeout for the attributes.
        ttl_attr: Option<Ttl>,
        /// The validity timeout for the name.
        ttl_entry: Option<Ttl>,
        /// The attribute block.
        attr: FileAttr,
        /// The handle of the opened file.
        fh: u64,
        /// One bit per open option.
        flags: u32,
    },
    /// A logical-to-physical block mapping result.
    Bmap {
        /// The physical block index.
        block: u64,
    },
    /// A readiness notification.
    Poll {
        /// The ready-events bitmask.
        revents: u32,
    },
    /// A directory listing: the accepted records, in acceptance order.
    Dirs {
        /// The records that fit the kernel-declared buffer.
        entries: Vec<DirRecord>,
    },
    /// An attribute-augmented directory listing.
    DirsPlus {
        /// The records that fit the kernel-declared buffer.
        entries: Vec<DirPlusRecord>,
    },
}

/// The outcome of one answered request: which request it answers and what
/// goes on the wire for it.
#[derive(Debug)]
pub struct Outcome {
    /// The identifier of the request this outcome answers.
    pub unique: u64,
    /// What the transport encoder must serialize.
    pub payload: Payload,
}

} // verus!
