//! Resilient session and realtime layer of a chat-client backend.
//!
//! The crate contains the verified core: API-base normalization, the token
//! lifecycle over a model of the secure credential store, the authenticated
//! request executor's retry policy, and the realtime reconnect state machine.
//! The asynchronous transport that drives these machines lives outside the
//! library and feeds them plain events.

use vstd::prelude::*;

pub mod attachments;
pub mod crypto;
pub mod errors;
pub mod executor;
pub mod paths;
pub mod json;
pub mod realtime;
pub mod session;
pub mod text;
pub mod tokens;
pub mod urls;

verus! {

/// Lower inclusive bound of an HTTP success status.
pub const STATUS_OK_MIN: u16 = 200;

/// Exclusive upper bound of an HTTP success status.
pub const STATUS_OK_END: u16 = 300;

/// Whether a status code counts as a success (2xx).
pub open spec fn is_success_status(status: u16) -> bool {
    STATUS_OK_MIN <= status < STATUS_OK_END
}

/// Executable test for a 2xx status.
pub fn status_is_success(status: u16) -> (r: bool)
    ensures
        r == is_success_status(status),
{
    STATUS_OK_MIN <= status && status < STATUS_OK_END
}

} // verus!
