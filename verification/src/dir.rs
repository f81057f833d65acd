//! The directory enumeration protocol: bounded, resumable listing.
//!
//! A directory reply is a stateful contract: while accumulating, the
//! handler repeatedly `add`s one record with its resumption offset; `true`
//! means the record was appended to the pending buffer, `false` that the
//! remaining capacity could not hold it and nothing of it was buffered.
//! After the first `false` the buffer is closed: no later record is
//! accepted even if it alone would fit.  The terminal `send` consumes the
//! reply token and finalizes whatever records were accepted — a short
//! listing is valid and simply makes the kernel issue a follow-up request
//! from the last resumption offset.
//!
//! Capacity is computed once at construction from the kernel-declared
//! buffer size for the request and never grows.  Each record is accounted
//! at its encoded size: a fixed header plus the name, padded to the record
//! alignment.

use vstd::prelude::*;
use crate::error::{Error, IoFailure};
use crate::options::{EntryOptions, NonExhaustive};
use crate::outcome::{Outcome, Payload};
use crate::token::ReplyToken;
use crate::types::{FileAttr, Ttl};

verus! {

/// A directory entry reported to an enumeration reply: inode number, type
/// tag and name.
#[derive(Debug)]
pub struct DirEntry {
    /// The inode number of this entry.
    pub ino: u64,
    /// The type of this entry.
    pub typ: u32,
    /// The name of this entry, as a byte string.
    pub name: Vec<u8>,
    pub __non_exhaustive: NonExhaustive,
}

impl DirEntry {
    /// A directory entry with the given inode number, type tag and name.
    pub fn new(ino: u64, typ: u32, name: Vec<u8>) -> (r: Self)
        ensures
            r.ino == ino,
            r.typ == typ,
            r.name@ == name@,
    {
        DirEntry { ino, typ, name, __non_exhaustive: NonExhaustive::init() }
    }
}

/// One accepted record of a plain directory listing, as the transport
/// encoder is fed it: the entry plus its resumption offset.
#[derive(Debug)]
pub struct DirRecord {
    /// The inode number of the entry.
    pub ino: u64,
    /// The type of the entry.
    pub typ: u32,
    /// The name of the entry, as a byte string.
    pub name: Vec<u8>,
    /// The opaque cookie from which the kernel resumes enumeration after
    /// this record.
    pub offset: u64,
}

/// One accepted record of an attribute-augmented listing: the entry, its
/// resumption offset, and the attribute and entry-cache data that prime
/// the kernel's entry cache for this child.
#[derive(Debug)]
pub struct DirPlusRecord {
    /// The inode number of the entry.
    pub ino: u64,
    /// The type of the entry.
    pub typ: u32,
    /// The name of the entry, as a byte string.
    pub name: Vec<u8>,
    /// The opaque cookie from which the kernel resumes enumeration after
    /// this record.
    pub offset: u64,
    /// The attribute block of the child.
    pub attr: FileAttr,
    /// The inode number of the cached entry, zero for a negative entry.
    pub entry_ino: u64,
    /// The generation paired with the cached inode number.
    pub generation: u64,
    /// The validity timeout for the attributes.
    pub ttl_attr: Option<Ttl>,
    /// The validity timeout for the name.
    pub ttl_entry: Option<Ttl>,
}

/// The encoded size of one plain record: a 24-byte header plus the name,
/// padded to 8-byte alignment.
pub open spec fn dirent_size_spec(name_len: nat) -> nat {
    24 + ((name_len + 7) / 8) * 8
}

/// The encoded size of one attribute-augmented record: a 152-byte header
/// (entry block included) plus the name, padded to 8-byte alignment.
pub open spec fn dirent_plus_size_spec(name_len: nat) -> nat {
    152 + ((name_len + 7) / 8) * 8
}

/// Padding a length to 8-byte alignment never shrinks it and adds less
/// than the alignment.
proof fn lemma_align8_bounds(n: nat)
    ensures
        n <= ((n + 7) / 8) * 8 <= n + 7,
{
    let x = n as int + 7;
    vstd::arithmetic::div_mod::lemma_fundamental_div_mod(x, 8);
    vstd::arithmetic::div_mod::lemma_mod_bound(x, 8);
}

/// The encoded size of one plain record with a name of `name_len` bytes.
pub fn dirent_size(name_len: usize) -> (r: usize)
    requires
        name_len <= usize::MAX - 31,
    ensures
        r == dirent_size_spec(name_len as nat),
{
    proof {
        lemma_align8_bounds(name_len as nat);
    }
    24 + ((name_len + 7) / 8) * 8
}

/// The encoded size of one attribute-augmented record with a name of
/// `name_len` bytes.
pub fn dirent_plus_size(name_len: usize) -> (r: usize)
    requires
        name_len <= usize::MAX - 159,
    ensures
        r == dirent_plus_size_spec(name_len as nat),
{
    proof {
        lemma_align8_bounds(name_len as nat);
    }
    152 + ((name_len + 7) / 8) * 8
}

/// The bytes a sequence of plain records occupies in the reply buffer.
pub open spec fn records_size(s: Seq<DirRecord>) -> nat
    decreases s.len(),
{
    if s.len() == 0 {
        0
    } else {
        records_size(s.drop_last()) + dirent_size_spec(s.last().name@.len())
    }
}

/// The bytes a sequence of attribute-augmented records occupies in the
/// reply buffer.
pub open spec fn records_plus_size(s: Seq<DirPlusRecord>) -> nat
    decreases s.len(),
{
    if s.len() == 0 {
        0
    } else {
        records_plus_size(s.drop_last()) + dirent_plus_size_spec(s.last().name@.len())
    }
}

/// Whether a buffer that has `used` of `capacity` bytes filled and is
/// closed or not accepts one more record of encoded size `size`.
///
/// This single predicate is what every `add` step of the enumeration
/// protocol returns: a record is accepted exactly while the buffer is
/// still open and the running total stays within capacity.
pub open spec fn accepts(used: nat, closed: bool, capacity: nat, size: nat) -> bool {
    &&& !closed
    &&& used + size <= capacity
}

/// The sum of the first `n` of the given encoded record sizes.
pub open spec fn prefix_size(sizes: Seq<nat>, n: int) -> nat
    decreases n,
{
    if n <= 0 || n > sizes.len() {
        0
    } else {
        prefix_size(sizes, n - 1) + sizes[n - 1]
    }
}

/// The buffer state — bytes used and whether it is closed — after a fresh
/// buffer of the given capacity was offered records of the given encoded
/// sizes, one `add` step per record.
pub open spec fn accept_fold(capacity: nat, sizes: Seq<nat>) -> (nat, bool)
    decreases sizes.len(),
{
    if sizes.len() == 0 {
        (0, false)
    } else {
        let prev = accept_fold(capacity, sizes.drop_last());
        if accepts(prev.0, prev.1, capacity, sizes.last()) {
            (prev.0 + sizes.last(), prev.1)
        } else {
            (prev.0, true)
        }
    }
}

/// What the `add` step for the record of size `sizes[i]` returns, after a
/// fresh buffer of the given capacity was offered the records before it.
pub open spec fn accept_result(capacity: nat, sizes: Seq<nat>, i: int) -> bool {
    accepts(
        accept_fold(capacity, sizes.take(i)).0,
        accept_fold(capacity, sizes.take(i)).1,
        capacity,
        sizes[i],
    )
}

/// Two sequences that agree on their first `n` elements have the same
/// prefix sums up to `n`.
proof fn lemma_prefix_size_agree(a: Seq<nat>, b: Seq<nat>, n: int)
    requires
        0 <= n <= a.len(),
        n <= b.len(),
        forall|i: int| 0 <= i < n ==> a[i] == b[i],
    ensures
        prefix_size(a, n) == prefix_size(b, n),
    decreases n,
{
    if n > 0 {
        lemma_prefix_size_agree(a, b, n - 1);
    }
}

/// After a fresh buffer was offered a whole sequence of record sizes, it
/// is closed exactly when their total exceeds the capacity, and while it
/// is open its accounting equals that total, which is within capacity.
proof fn lemma_accept_fold_invariant(capacity: nat, sizes: Seq<nat>)
    ensures
        accept_fold(capacity, sizes).1 <==> prefix_size(sizes, sizes.len() as int) > capacity,
        !accept_fold(capacity, sizes).1 ==> accept_fold(capacity, sizes).0 == prefix_size(
            sizes,
            sizes.len() as int,
        ),
    decreases sizes.len(),
{
    if sizes.len() > 0 {
        let shorter = sizes.drop_last();
        lemma_accept_fold_invariant(capacity, shorter);
        lemma_prefix_size_agree(shorter, sizes, shorter.len() as int);
    }
}

/// The directory capacity law.
///
/// Offer a fresh buffer of capacity `capacity` records of encoded sizes
/// `sizes`, one `add` step each: the step for record `i` accepts exactly
/// when the running sum through record `i` stays within capacity.  Since
/// running sums never decrease, every record before the first refusal is
/// accepted and none after it — even one that alone would still fit.
pub proof fn lemma_capacity_law(capacity: nat, sizes: Seq<nat>)
    ensures
        forall|i: int|
            0 <= i < sizes.len() ==> accept_result(capacity, sizes, i) == (prefix_size(
                sizes,
                i + 1,
            ) <= capacity),
{
    assert forall|i: int| 0 <= i < sizes.len() implies accept_result(capacity, sizes, i) == (
    prefix_size(sizes, i + 1) <= capacity) by {
        let before = sizes.take(i);
        lemma_accept_fold_invariant(capacity, before);
        lemma_prefix_size_agree(before, sizes, i);
        assert(prefix_size(sizes, i + 1) == prefix_size(sizes, i) + sizes[i]);
    }
}

/// Offset monotonicity for plain listings: the resumption offsets of the
/// accepted records of a well-formed buffer are strictly increasing in
/// acceptance order.
pub proof fn lemma_offsets_monotonic(buffer: &DirsBuffer)
    requires
        buffer.wf(),
    ensures
        forall|i: int, j: int|
            0 <= i < j < buffer.entries_spec().len() ==> buffer.entries_spec()[i].offset
                < buffer.entries_spec()[j].offset,
{
}

/// Offset monotonicity for attribute-augmented listings: the resumption
/// offsets of the accepted records of a well-formed buffer are strictly
/// increasing in acceptance order.
pub proof fn lemma_offsets_monotonic_plus(buffer: &DirsPlusBuffer)
    requires
        buffer.wf(),
    ensures
        forall|i: int, j: int|
            0 <= i < j < buffer.entries_spec().len() ==> buffer.entries_spec()[i].offset
                < buffer.entries_spec()[j].offset,
{
}

/// The contract for a plain directory listing reply.
///
/// State machine: accumulating, then sent — one way, since `send` consumes
/// the value.  The specification functions expose the buffer state the
/// contract clauses speak of.
pub trait ReplyDirs: Sized {
    /// The success value of the terminal call.
    type Ok;

    /// The failure value of the terminal call.
    type Error: Error;

    /// The identifier of the request this reply answers.
    spec fn request_id(&self) -> u64;

    /// The capacity in bytes, fixed at construction.
    spec fn capacity_spec(&self) -> nat;

    /// The bytes the accepted records occupy.
    spec fn used_spec(&self) -> nat;

    /// Whether an `add` has already been refused.
    spec fn closed_spec(&self) -> bool;

    /// The accepted records, in acceptance order.
    spec fn entries_spec(&self) -> Seq<DirRecord>;

    /// The buffer's well-formedness: accounting is exact, capacity is
    /// respected, offsets of accepted records are strictly increasing.
    spec fn wf(&self) -> bool;

    /// What [`ReplyDirs::send`] returns.
    spec fn send_outcome(self) -> Result<Self::Ok, Self::Error>;

    /// Offer one record with its resumption offset.
    ///
    /// Returns `true` exactly when the buffer was still open and the
    /// record's encoded size fit the remaining capacity; the record is
    /// then appended.  Returns `false` otherwise, buffering nothing of the
    /// record and closing the buffer: the caller must stop adding and
    /// proceed to [`ReplyDirs::send`].  Offsets must exceed every
    /// previously accepted record's offset — the caller's obligation for
    /// resumption without duplication or loss.
    fn add(&mut self, dirent: DirEntry, offset: u64) -> (r: bool)
        requires
            old(self).wf(),
            forall|j: int|
                0 <= j < old(self).entries_spec().len() ==> old(self).entries_spec()[j].offset
                    < offset,
        ensures
            final(self).wf(),
            final(self).request_id() == old(self).request_id(),
            final(self).capacity_spec() == old(self).capacity_spec(),
            r == accepts(
                old(self).used_spec(),
                old(self).closed_spec(),
                old(self).capacity_spec(),
                dirent_size_spec(dirent.name@.len()),
            ),
            r ==> final(self).entries_spec() == old(self).entries_spec().push(
                (DirRecord { ino: dirent.ino, typ: dirent.typ, name: dirent.name, offset }),
            ),
            r ==> final(self).used_spec() == old(self).used_spec() + dirent_size_spec(
                dirent.name@.len(),
            ),
            r ==> final(self).closed_spec() == old(self).closed_spec(),
            !r ==> final(self).entries_spec() == old(self).entries_spec(),
            !r ==> final(self).used_spec() == old(self).used_spec(),
            !r ==> final(self).closed_spec(),
    ;

    /// Finalize the listing with every accepted record, consuming the
    /// reply token; valid whether or not capacity was exhausted.
    fn send(self) -> (r: Result<Self::Ok, Self::Error>)
        requires
            self.wf(),
        ensures
            r == self.send_outcome(),
    ;
}

/// The contract for an attribute-augmented directory listing reply.
///
/// As [`ReplyDirs`], but each record also carries an attribute block and
/// entry options, letting one enumeration reply prime the entry cache for
/// every listed child.
pub trait ReplyDirsPlus: Sized {
    /// The success value of the terminal call.
    type Ok;

    /// The failure value of the terminal call.
    type Error: Error;

    /// The identifier of the request this reply answers.
    spec fn request_id(&self) -> u64;

    /// The capacity in bytes, fixed at construction.
    spec fn capacity_spec(&self) -> nat;

    /// The bytes the accepted records occupy.
    spec fn used_spec(&self) -> nat;

    /// Whether an `add` has already been refused.
    spec fn closed_spec(&self) -> bool;

    /// The accepted records, in acceptance order.
    spec fn entries_spec(&self) -> Seq<DirPlusRecord>;

    /// The buffer's well-formedness: accounting is exact, capacity is
    /// respected, offsets of accepted records are strictly increasing.
    spec fn wf(&self) -> bool;

    /// What [`ReplyDirsPlus::send`] returns.
    spec fn send_outcome(self) -> Result<Self::Ok, Self::Error>;

    /// Offer one record with its resumption offset, the child's attribute
    /// block and the entry options caching it.
    ///
    /// Acceptance follows the same law as [`ReplyDirs::add`], at this
    /// variant's larger encoded record size.
    fn add(&mut self, dirent: DirEntry, offset: u64, attr: FileAttr, opts: &EntryOptions) -> (r:
        bool)
        requires
            old(self).wf(),
            forall|j: int|
                0 <= j < old(self).entries_spec().len() ==> old(self).entries_spec()[j].offset
                    < offset,
        ensures
            final(self).wf(),
            final(self).request_id() == old(self).request_id(),
            final(self).capacity_spec() == old(self).capacity_spec(),
            r == accepts(
                old(self).used_spec(),
                old(self).closed_spec(),
                old(self).capacity_spec(),
                dirent_plus_size_spec(dirent.name@.len()),
            ),
            r ==> final(self).entries_spec() == old(self).entries_spec().push(
                (DirPlusRecord {
                    ino: dirent.ino,
                    typ: dirent.typ,
                    name: dirent.name,
                    offset,
                    attr,
                    entry_ino: opts.ino,
                    generation: opts.generation,
                    ttl_attr: opts.ttl_attr,
                    ttl_entry: opts.ttl_entry,
                }),
            ),
            r ==> final(self).used_spec() == old(self).used_spec() + dirent_plus_size_spec(
                dirent.name@.len(),
            ),
            r ==> final(self).closed_spec() == old(self).closed_spec(),
            !r ==> final(self).entries_spec() == old(self).entries_spec(),
            !r ==> final(self).used_spec() == old(self).used_spec(),
            !r ==> final(self).closed_spec(),
    ;

    /// Finalize the listing with every accepted record, consuming the
    /// reply token; valid whether or not capacity was exhausted.
    fn send(self) -> (r: Result<Self::Ok, Self::Error>)
        requires
            self.wf(),
        ensures
            r == self.send_outcome(),
    ;
}

/// The accumulator behind one plain directory listing reply.
#[derive(Debug)]
pub struct DirsBuffer {
    token: ReplyToken,
    capacity: usize,
    used: usize,
    closed: bool,
    entries: Vec<DirRecord>,
}

impl DirsBuffer {
    /// The accepted records as the vector the outcome will carry.
    pub closed spec fn entries_vec_spec(self) -> Vec<DirRecord> {
        self.entries
    }

    /// A buffer for the request the token answers, with the capacity
    /// computed from the kernel-declared buffer size of that request.
    ///
    /// The capacity bound keeps the size arithmetic of every record within
    /// the machine word.
    pub fn new(token: ReplyToken, capacity: usize) -> (r: Self)
        requires
            capacity <= usize::MAX - 31,
        ensures
            r.wf(),
            r.request_id() == token.unique_spec(),
            r.capacity_spec() == capacity,
            r.used_spec() == 0,
            !r.closed_spec(),
            r.entries_spec() == Seq::<DirRecord>::empty(),
    {
        DirsBuffer { token, capacity, used: 0, closed: false, entries: Vec::new() }
    }
}

impl ReplyDirs for DirsBuffer {
    type Ok = Outcome;

    type Error = IoFailure;

    closed spec fn request_id(&self) -> u64 {
        self.token.unique_spec()
    }

    closed spec fn capacity_spec(&self) -> nat {
        self.capacity as nat
    }

    closed spec fn used_spec(&self) -> nat {
        self.used as nat
    }

    closed spec fn closed_spec(&self) -> bool {
        self.closed
    }

    open spec fn entries_spec(&self) -> Seq<DirRecord> {
        self.entries_vec_spec()@
    }

    open spec fn wf(&self) -> bool {
        &&& self.capacity_spec() <= usize::MAX - 31
        &&& self.used_spec() == records_size(self.entries_spec())
        &&& self.used_spec() <= self.capacity_spec()
        &&& forall|i: int, j: int|
            0 <= i < j < self.entries_spec().len() ==> self.entries_spec()[i].offset
                < self.entries_spec()[j].offset
    }

    open spec fn send_outcome(self) -> Result<Outcome, IoFailure> {
        Ok(
            Outcome {
                unique: self.request_id(),
                payload: Payload::Dirs { entries: self.entries_vec_spec() },
            },
        )
    }

    fn add(&mut self, dirent: DirEntry, offset: u64) -> (r: bool) {
        if self.closed {
            return false;
        }
        let name_len = dirent.name.len();
        if name_len > self.capacity {
            self.closed = true;
            proof {
                lemma_align8_bounds(name_len as nat);
            }
            return false;
        }
        let size = dirent_size(name_len);
        if size > self.capacity - self.used {
            self.closed = true;
            return false;
        }
        self.used = self.used + size;
        let record = DirRecord { ino: dirent.ino, typ: dirent.typ, name: dirent.name, offset };
        self.entries.push(record);
        proof {
            assert(self.entries@.drop_last() =~= old(self).entries@);
        }
        true
    }

    fn send(self) -> (r: Result<Outcome, IoFailure>) {
        let DirsBuffer { token, capacity: _, used: _, closed: _, entries } = self;
        let unique = token.unique();
        Ok(Outcome { unique, payload: Payload::Dirs { entries } })
    }
}

/// The accumulator behind one attribute-augmented directory listing reply.
#[derive(Debug)]
pub struct DirsPlusBuffer {
    token: ReplyToken,
    capacity: usize,
    used: usize,
    closed: bool,
    entries: Vec<DirPlusRecord>,
}

impl DirsPlusBuffer {
    /// The accepted records as the vector the outcome will carry.
    pub closed spec fn entries_vec_spec(self) -> Vec<DirPlusRecord> {
        self.entries
    }

    /// A buffer for the request the token answers, with the capacity
    /// computed from the kernel-declared buffer size of that request.
    ///
    /// The capacity bound keeps the size arithmetic of every record within
    /// the machine word.
    pub fn new(token: ReplyToken, capacity: usize) -> (r: Self)
        requires
            capacity <= usize::MAX - 159,
        ensures
            r.wf(),
            r.request_id() == token.unique_spec(),
            r.capacity_spec() == capacity,
            r.used_spec() == 0,
            !r.closed_spec(),
            r.entries_spec() == Seq::<DirPlusRecord>::empty(),
    {
        DirsPlusBuffer { token, capacity, used: 0, closed: false, entries: Vec::new() }
    }
}

impl ReplyDirsPlus for DirsPlusBuffer {
    type Ok = Outcome;

    type Error = IoFailure;

    closed spec fn request_id(&self) -> u64 {
        self.token.unique_spec()
    }

    closed spec fn capacity_spec(&self) -> nat {
        self.capacity as nat
    }

    closed spec fn used_spec(&self) -> nat {
        self.used as nat
    }

    closed spec fn closed_spec(&self) -> bool {
        self.closed
    }

    open spec fn entries_spec(&self) -> Seq<DirPlusRecord> {
        self.entries_vec_spec()@
    }

    open spec fn wf(&self) -> bool {
        &&& self.capacity_spec() <= usize::MAX - 159
        &&& self.used_spec() == records_plus_size(self.entries_spec())
        &&& self.used_spec() <= self.capacity_spec()
        &&& forall|i: int, j: int|
            0 <= i < j < self.entries_spec().len() ==> self.entries_spec()[i].offset
                < self.entries_spec()[j].offset
    }

    open spec fn send_outcome(self) -> Result<Outcome, IoFailure> {
        Ok(
            Outcome {
                unique: self.request_id(),
                payload: Payload::DirsPlus { entries: self.entries_vec_spec() },
            },
        )
    }

    fn add(&mut self, dirent: DirEntry, offset: u64, attr: FileAttr, opts: &EntryOptions) -> (r:
        bool) {
        if self.closed {
            return false;
        }
        let name_len = dirent.name.len();
        if name_len > self.capacity {
            self.closed = true;
            proof {
                lemma_align8_bounds(name_len as nat);
            }
            return false;
        }
        let size = dirent_plus_size(name_len);
        if size > self.capacity - self.used {
            self.closed = true;
            return false;
        }
        self.used = self.used + size;
        let record = DirPlusRecord {
            ino: dirent.ino,
            typ: dirent.typ,
            name: dirent.name,
            offset,
            attr,
            entry_ino: opts.ino,
            generation: opts.generation,
            ttl_attr: opts.ttl_attr,
            ttl_entry: opts.ttl_entry,
        };
        self.entries.push(record);
        proof {
            assert(self.entries@.drop_last() =~= old(self).entries@);
        }
        true
    }

    fn send(self) -> (r: Result<Outcome, IoFailure>) {
        let DirsPlusBuffer { token, capacity: _, used: _, closed: _, entries } = self;
        let unique = token.unique();
        Ok(Outcome { unique, payload: Payload::DirsPlus { entries } })
    }
}

} // verus!
