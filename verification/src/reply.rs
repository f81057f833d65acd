//! Scalar reply contracts: one trait per operation category.
//!
//! All contracts share one shape: a terminal method that consumes the
//! implementing value — and with it the [`ReplyToken`] it holds — and
//! returns either a success value or a failure from the error abstraction.
//! Because the receiver is taken by value, a second terminal call against
//! the same token cannot be written: the at-most-once rule is enforced by
//! ownership, not by a runtime check.
//!
//! Each trait pins its terminal method down with a specification function:
//! whatever the implementation, the returned value is exactly what that
//! function says for the given receiver and arguments, so the terminal call
//! is a pure, synchronous hand-off of a value.  [`Replier`] is the
//! implementation producing [`Outcome`] values for the transport encoder.

use vstd::prelude::*;
use crate::error::{Error, IoFailure};
use crate::options::{EntryOptions, OpenOptions};
use crate::outcome::{Outcome, Payload};
use crate::token::ReplyToken;
use crate::types::{FileAttr, FsStatistics, Ttl};

verus! {

/// The contract for a lookup/create-style entry reply.
pub trait ReplyEntry: Sized {
    /// The success value of the terminal call.
    type Ok;

    /// The failure value of the terminal call.
    type Error: Error;

    /// What [`ReplyEntry::entry`] returns for the given arguments.
    spec fn entry_outcome(self, attr: FileAttr, opts: EntryOptions) -> Result<
        Self::Ok,
        Self::Error,
    >;

    /// Reply with an entry: inode, generation and cache lifetimes as the
    /// options give them; `opts.ino == 0` models a cacheable negative
    /// lookup.
    fn entry(self, attr: FileAttr, opts: &EntryOptions) -> (r: Result<Self::Ok, Self::Error>)
        ensures
            r == self.entry_outcome(attr, *opts),
    ;
}

/// The contract for a plain attribute reply.
pub trait ReplyAttr: Sized {
    /// The success value of the terminal call.
    type Ok;

    /// The failure value of the terminal call.
    type Error: Error;

    /// What [`ReplyAttr::attr`] returns for the given arguments.
    spec fn attr_outcome(self, attr: FileAttr, ttl: Option<Ttl>) -> Result<
        Self::Ok,
        Self::Error,
    >;

    /// Reply with the attributes and their optional validity timeout.
    fn attr(self, attr: FileAttr, ttl: Option<Ttl>) -> (r: Result<Self::Ok, Self::Error>)
        ensures
            r == self.attr_outcome(attr, ttl),
    ;
}

/// The contract for a bare acknowledgement.
pub trait ReplyOk: Sized {
    /// The success value of the terminal call.
    type Ok;

    /// The failure value of the terminal call.
    type Error: Error;

    /// What [`ReplyOk::ok`] returns.
    spec fn ok_outcome(self) -> Result<Self::Ok, Self::Error>;

    /// Reply with a bare acknowledgement, no payload.
    fn ok(self) -> (r: Result<Self::Ok, Self::Error>)
        ensures
            r == self.ok_outcome(),
    ;
}

/// The contract for a read-style reply carrying raw bytes.
pub trait ReplyData: Sized {
    /// The success value of the terminal call.
    type Ok;

    /// The failure value of the terminal call.
    type Error: Error;

    /// What [`ReplyData::data`] returns for the given bytes.
    spec fn data_outcome(self, data: Vec<u8>) -> Result<Self::Ok, Self::Error>;

    /// Reply with the bytes actually produced; their length is independent
    /// of the size the request asked for.
    fn data(self, data: Vec<u8>) -> (r: Result<Self::Ok, Self::Error>)
        ensures
            r == self.data_outcome(data),
    ;
}

/// The contract for a file- or directory-open reply.
pub trait ReplyOpen: Sized {
    /// The success value of the terminal call.
    type Ok;

    /// The failure value of the terminal call.
    type Error: Error;

    /// What [`ReplyOpen::open`] returns for the given arguments.
    spec fn open_outcome(self, fh: u64, opts: OpenOptions) -> Result<Self::Ok, Self::Error>;

    /// Reply that the file or directory was opened, with a handle opaque
    /// to this layer and the open options.
    fn open(self, fh: u64, opts: &OpenOptions) -> (r: Result<Self::Ok, Self::Error>)
        ensures
            r == self.open_outcome(fh, *opts),
    ;
}

/// The contract for a write reply.
pub trait ReplyWrite: Sized {
    /// The success value of the terminal call.
    type Ok;

    /// The failure value of the terminal call.
    type Error: Error;

    /// What [`ReplyWrite::size`] returns for the given count.
    spec fn write_outcome(self, size: u32) -> Result<Self::Ok, Self::Error>;

    /// Reply with the number of bytes accepted; a short write is valid,
    /// not an error.
    fn size(self, size: u32) -> (r: Result<Self::Ok, Self::Error>)
        ensures
            r == self.write_outcome(size),
    ;
}

/// The contract for a filesystem-statistics reply.
pub trait ReplyStatfs: Sized {
    /// The success value of the terminal call.
    type Ok;

    /// The failure value of the terminal call.
    type Error: Error;

    /// What [`ReplyStatfs::stat`] returns for the given snapshot.
    spec fn statfs_outcome(self, stat: FsStatistics) -> Result<Self::Ok, Self::Error>;

    /// Reply with a filesystem-wide usage and capacity snapshot.
    fn stat(self, stat: FsStatistics) -> (r: Result<Self::Ok, Self::Error>)
        ensures
            r == self.statfs_outcome(stat),
    ;
}

/// The contract for an extended-attribute reply.
///
/// The protocol's dual mode: a size query answers with the needed size
/// only, a data query with the actual bytes.  Exactly one of the two
/// terminal methods is invoked per reply instance — each consumes the
/// receiver, so invoking both cannot be written.  Choosing the method the
/// request did not ask for is a protocol error the handler must avoid;
/// this layer does not correct it.
pub trait ReplyXattr: Sized {
    /// The success value of the terminal call.
    type Ok;

    /// The failure value of the terminal call.
    type Error: Error;

    /// What [`ReplyXattr::size`] returns for the given size.
    spec fn xattr_size_outcome(self, size: u32) -> Result<Self::Ok, Self::Error>;

    /// What [`ReplyXattr::data`] returns for the given bytes.
    spec fn xattr_data_outcome(self, data: Vec<u8>) -> Result<Self::Ok, Self::Error>;

    /// Answer a size query: the size the full value needs, no bytes.
    fn size(self, size: u32) -> (r: Result<Self::Ok, Self::Error>)
        ensures
            r == self.xattr_size_outcome(size),
    ;

    /// Answer a data query: the actual bytes of the value.
    fn data(self, data: Vec<u8>) -> (r: Result<Self::Ok, Self::Error>)
        ensures
            r == self.xattr_data_outcome(data),
    ;
}

/// The contract for a record-lock reply.
pub trait ReplyLk: Sized {
    /// The success value of the terminal call.
    type Ok;

    /// The failure value of the terminal call.
    type Error: Error;

    /// What [`ReplyLk::lk`] returns for the given arguments.
    spec fn lk_outcome(self, typ: u32, start: u64, end: u64, pid: u32) -> Result<
        Self::Ok,
        Self::Error,
    >;

    /// Reply with a record-lock query result: lock type, byte range and
    /// owning process id.
    fn lk(self, typ: u32, start: u64, end: u64, pid: u32) -> (r: Result<Self::Ok, Self::Error>)
        ensures
            r == self.lk_outcome(typ, start, end, pid),
    ;
}

/// The contract for a create-and-open reply: entry and open semantics
/// combined atomically, both option sets applying independently.
pub trait ReplyCreate: Sized {
    /// The success value of the terminal call.
    type Ok;

    /// The failure value of the terminal call.
    type Error: Error;

    /// What [`ReplyCreate::create`] returns for the given arguments.
    spec fn create_outcome(
        self,
        fh: u64,
        attr: FileAttr,
        entry_opts: EntryOptions,
        open_opts: OpenOptions,
    ) -> Result<Self::Ok, Self::Error>;

    /// Reply that the file was created and opened.
    fn create(
        self,
        fh: u64,
        attr: FileAttr,
        entry_opts: &EntryOptions,
        open_opts: &OpenOptions,
    ) -> (r: Result<Self::Ok, Self::Error>)
        ensures
            r == self.create_outcome(fh, attr, *entry_opts, *open_opts),
    ;
}

/// The contract for a block-mapping reply.
pub trait ReplyBmap: Sized {
    /// The success value of the terminal call.
    type Ok;

    /// The failure value of the terminal call.
    type Error: Error;

    /// What [`ReplyBmap::block`] returns for the given index.
    spec fn bmap_outcome(self, block: u64) -> Result<Self::Ok, Self::Error>;

    /// Reply with the physical block index a logical block maps to.
    fn block(self, block: u64) -> (r: Result<Self::Ok, Self::Error>)
        ensures
            r == self.bmap_outcome(block),
    ;
}

/// The contract for a poll reply.
pub trait ReplyPoll: Sized {
    /// The success value of the terminal call.
    type Ok;

    /// The failure value of the terminal call.
    type Error: Error;

    /// What [`ReplyPoll::revents`] returns for the given bitmask.
    spec fn poll_outcome(self, revents: u32) -> Result<Self::Ok, Self::Error>;

    /// Reply with the ready-events bitmask.
    fn revents(self, revents: u32) -> (r: Result<Self::Ok, Self::Error>)
        ensures
            r == self.poll_outcome(revents),
    ;
}

/// The reply endpoint for one in-flight request.
///
/// It owns the request's [`ReplyToken`] and implements every scalar reply
/// contract; the dispatch layer constructs one per request and the handler
/// consumes it through the one terminal method matching the request's
/// operation kind.  Every terminal call succeeds and hands the produced
/// [`Outcome`] to the caller.
#[derive(Debug)]
pub struct Replier {
    token: ReplyToken,
}

impl Replier {
    /// The identifier of the request this endpoint answers.
    pub closed spec fn unique_spec(self) -> u64 {
        self.token.unique_spec()
    }

    /// Bind a reply endpoint to the request the token answers.
    pub fn new(token: ReplyToken) -> (r: Self)
        ensures
            r.unique_spec() == token.unique_spec(),
    {
        Replier { token }
    }
}

impl ReplyEntry for Replier {
    type Ok = Outcome;

    type Error = IoFailure;

    open spec fn entry_outcome(self, attr: FileAttr, opts: EntryOptions) -> Result<
        Outcome,
        IoFailure,
    > {
        Ok(
            Outcome {
                unique: self.unique_spec(),
                payload: Payload::Entry {
                    ino: opts.ino,
                    generation: opts.generation,
                    ttl_attr: opts.ttl_attr,
                    ttl_entry: opts.ttl_entry,
                    attr,
                },
            },
        )
    }

    fn entry(self, attr: FileAttr, opts: &EntryOptions) -> (r: Result<Outcome, IoFailure>) {
        Ok(
            Outcome {
                unique: self.token.unique(),
                payload: Payload::Entry {
                    ino: opts.ino,
                    generation: opts.generation,
                    ttl_attr: opts.ttl_attr,
                    ttl_entry: opts.ttl_entry,
                    attr,
                },
            },
        )
    }
}

impl ReplyAttr for Replier {
    type Ok = Outcome;

    type Error = IoFailure;

    open spec fn attr_outcome(self, attr: FileAttr, ttl: Option<Ttl>) -> Result<
        Outcome,
        IoFailure,
    > {
        Ok(Outcome { unique: self.unique_spec(), payload: Payload::Attr { attr, ttl } })
    }

    fn attr(self, attr: FileAttr, ttl: Option<Ttl>) -> (r: Result<Outcome, IoFailure>) {
        Ok(Outcome { unique: self.token.unique(), payload: Payload::Attr { attr, ttl } })
    }
}

impl ReplyOk for Replier {
    type Ok = Outcome;

    type Error = IoFailure;

    open spec fn ok_outcome(self) -> Result<Outcome, IoFailure> {
        Ok(Outcome { unique: self.unique_spec(), payload: Payload::Ack })
    }

    fn ok(self) -> (r: Result<Outcome, IoFailure>) {
        Ok(Outcome { unique: self.token.unique(), payload: Payload::Ack })
    }
}

impl ReplyData for Replier {
    type Ok = Outcome;

    type Error = IoFailure;

    open spec fn data_outcome(self, data: Vec<u8>) -> Result<Outcome, IoFailure> {
        Ok(Outcome { unique: self.unique_spec(), payload: Payload::Data { data } })
    }

    fn data(self, data: Vec<u8>) -> (r: Result<Outcome, IoFailure>) {
        Ok(Outcome { unique: self.token.unique(), payload: Payload::Data { data } })
    }
}

impl ReplyOpen for Replier {
    type Ok = Outcome;

    type Error = IoFailure;

    open spec fn open_outcome(self, fh: u64, opts: OpenOptions) -> Result<Outcome, IoFailure> {
        Ok(
            Outcome {
                unique: self.unique_spec(),
                payload: Payload::Open { fh, flags: opts.flags_spec() },
            },
        )
    }

    fn open(self, fh: u64, opts: &OpenOptions) -> (r: Result<Outcome, IoFailure>) {
        Ok(
            Outcome {
                unique: self.token.unique(),
                payload: Payload::Open { fh, flags: opts.flags() },
            },
        )
    }
}

impl ReplyWrite for Replier {
    type Ok = Outcome;

    type Error = IoFailure;

    open spec fn write_outcome(self, size: u32) -> Result<Outcome, IoFailure> {
        Ok(Outcome { unique: self.unique_spec(), payload: Payload::Write { size } })
    }

    fn size(self, size: u32) -> (r: Result<Outcome, IoFailure>) {
        Ok(Outcome { unique: self.token.unique(), payload: Payload::Write { size } })
    }
}

impl ReplyStatfs for Replier {
    type Ok = Outcome;

    type Error = IoFailure;

    open spec fn statfs_outcome(self, stat: FsStatistics) -> Result<Outcome, IoFailure> {
        Ok(Outcome { unique: self.unique_spec(), payload: Payload::Statfs { stat } })
    }

    fn stat(self, stat: FsStatistics) -> (r: Result<Outcome, IoFailure>) {
        Ok(Outcome { unique: self.token.unique(), payload: Payload::Statfs { stat } })
    }
}

impl ReplyXattr for Replier {
    type Ok = Outcome;

    type Error = IoFailure;

    open spec fn xattr_size_outcome(self, size: u32) -> Result<Outcome, IoFailure> {
        Ok(Outcome { unique: self.unique_spec(), payload: Payload::XattrSize { size } })
    }

    open spec fn xattr_data_outcome(self, data: Vec<u8>) -> Result<Outcome, IoFailure> {
        Ok(Outcome { unique: self.unique_spec(), payload: Payload::XattrData { data } })
    }

    fn size(self, size: u32) -> (r: Result<Outcome, IoFailure>) {
        Ok(Outcome { unique: self.token.unique(), payload: Payload::XattrSize { size } })
    }

    fn data(self, data: Vec<u8>) -> (r: Result<Outcome, IoFailure>) {
        Ok(Outcome { unique: self.token.unique(), payload: Payload::XattrData { data } })
    }
}

impl ReplyLk for Replier {
    type Ok = Outcome;

    type Error = IoFailure;

    open spec fn lk_outcome(self, typ: u32, start: u64, end: u64, pid: u32) -> Result<
        Outcome,
        IoFailure,
    > {
        Ok(Outcome { unique: self.unique_spec(), payload: Payload::Lk { typ, start, end, pid } })
    }

    fn lk(self, typ: u32, start: u64, end: u64, pid: u32) -> (r: Result<Outcome, IoFailure>) {
        Ok(Outcome { unique: self.token.unique(), payload: Payload::Lk { typ, start, end, pid } })
    }
}

impl ReplyCreate for Replier {
    type Ok = Outcome;

    type Error = IoFailure;

    open spec fn create_outcome(
        self,
        fh: u64,
        attr: FileAttr,
        entry_opts: EntryOptions,
        open_opts: OpenOptions,
    ) -> Result<Outcome, IoFailure> {
        Ok(
            Outcome {
                unique: self.unique_spec(),
                payload: Payload::Create {
                    ino: entry_opts.ino,
                    generation: entry_opts.generation,
                    ttl_attr: entry_opts.ttl_attr,
                    ttl_entry: entry_opts.ttl_entry,
                    attr,
                    fh,
                    flags: open_opts.flags_spec(),
                },
            },
        )
    }

    fn create(
        self,
        fh: u64,
        attr: FileAttr,
        entry_opts: &EntryOptions,
        open_opts: &OpenOptions,
    ) -> (r: Result<Outcome, IoFailure>) {
        Ok(
            Outcome {
                unique: self.token.unique(),
                payload: Payload::Create {
                    ino: entry_opts.ino,
                    generation: entry_opts.generation,
                    ttl_attr: entry_opts.ttl_attr,
                    ttl_entry: entry_opts.ttl_entry,
                    attr,
                    fh,
                    flags: open_opts.flags(),
                },
            },
        )
    }
}

impl ReplyBmap for Replier {
    type Ok = Outcome;

    type Error = IoFailure;

    open spec fn bmap_outcome(self, block: u64) -> Result<Outcome, IoFailure> {
        Ok(Outcome { unique: self.unique_spec(), payload: Payload::Bmap { block } })
    }

    fn block(self, block: u64) -> (r: Result<Outcome, IoFailure>) {
        Ok(Outcome { unique: self.token.unique(), payload: Payload::Bmap { block } })
    }
}

impl ReplyPoll for Replier {
    type Ok = Outcome;

    type Error = IoFailure;

    open spec fn poll_outcome(self, revents: u32) -> Result<Outcome, IoFailure> {
        Ok(Outcome { unique: self.unique_spec(), payload: Payload::Poll { revents } })
    }

    fn revents(self, revents: u32) -> (r: Result<Outcome, IoFailure>) {
        Ok(Outcome { unique: self.token.unique(), payload: Payload::Poll { revents } })
    }
}

} // verus!
