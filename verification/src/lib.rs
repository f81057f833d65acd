//! Reply-side contracts for a userspace filesystem protocol.
//!
//! A handler answering one in-flight kernel request holds an exclusive
//! [`token::ReplyToken`] and consumes it through exactly one terminal method
//! of the reply contract matching the request's operation kind.  The terminal
//! call produces an [`outcome::Outcome`] describing what the transport
//! encoder must put on the wire.

pub mod dir;
pub mod error;
pub mod options;
pub mod outcome;
pub mod reply;
pub mod token;
pub mod types;
