//! The exclusive right to answer one in-flight request.

use vstd::prelude::*;

verus! {

/// The right to answer exactly one in-flight kernel request.
///
/// The dispatch layer creates one token per inbound request and hands it to
/// the handler of that request.  The token is owned, never copied: the
/// terminal method of whichever reply contract matches the request consumes
/// it by value, so a second terminal call against the same token cannot be
/// written at all.
#[derive(Debug)]
pub struct ReplyToken {
    unique: u64,
}

impl ReplyToken {
    /// The identifier of the in-flight request this token answers.
    pub closed spec fn unique_spec(self) -> u64 {
        self.unique
    }

    /// A token for the request identified by `unique`.
    ///
    /// Called once per inbound request by the dispatch layer; two live
    /// tokens for one request must never exist.
    pub fn new(unique: u64) -> (r: Self)
        ensures
            r.unique_spec() == unique,
    {
        ReplyToken { unique }
    }

    /// Read the request identifier without consuming the token.
    pub fn unique(&self) -> (r: u64)
        ensures
            r == self.unique_spec(),
    {
        self.unique
    }
}

} // verus!
