//! Request paths of the domain endpoints.
//!
//! Every call site resolves its URL as the current API base plus one of
//! these relative paths; listing endpoints clamp their page size and append
//! an optional cursor.

use vstd::prelude::*;
use vstd::string::*;
use crate::text::{dec_rep, u32_string};

verus! {

/// Default page size of listing endpoints.
pub const DEFAULT_PAGE_LIMIT: u32 = 50;

/// Smallest accepted page size.
pub const MIN_PAGE_LIMIT: u32 = 1;

/// Largest accepted page size.
pub const MAX_PAGE_LIMIT: u32 = 100;

/// The page size actually requested: the default where none is given,
/// clamped into the accepted band.
pub open spec fn clamped_limit(limit: Option<u32>) -> u32 {
    let n = match limit {
        Some(v) => v,
        None => DEFAULT_PAGE_LIMIT,
    };
    if n < MIN_PAGE_LIMIT {
        MIN_PAGE_LIMIT
    } else if n > MAX_PAGE_LIMIT {
        MAX_PAGE_LIMIT
    } else {
        n
    }
}

/// Clamp a requested page size.
pub fn clamp_limit(limit: Option<u32>) -> (r: u32)
    ensures
        r == clamped_limit(limit),
{
    let n = match limit {
        Some(v) => v,
        None => DEFAULT_PAGE_LIMIT,
    };
    if n < MIN_PAGE_LIMIT {
        MIN_PAGE_LIMIT
    } else if n > MAX_PAGE_LIMIT {
        MAX_PAGE_LIMIT
    } else {
        n
    }
}

/// Join a prefix, an identifier and a suffix.
fn join3(prefix: &str, id: &str, suffix: &str) -> (r: String)
    ensures
        r@ == prefix@ + id@ + suffix@,
{
    let mut out = prefix.to_owned();
    out.append(id);
    out.append(suffix);
    out
}

/// The path of one channel: `/channels/{id}`.
pub fn channel_path(channel_id: &str) -> (r: String)
    ensures
        r@ == "/channels/"@ + channel_id@,
{
    let mut out = String::from_str("/channels/");
    out.append(channel_id);
    out
}

/// The messages collection of a channel: `/channels/{id}/messages`.
pub fn channel_messages_path(channel_id: &str) -> (r: String)
    ensures
        r@ == "/channels/"@ + channel_id@ + "/messages"@,
{
    join3("/channels/", channel_id, "/messages")
}

/// The path of one message: `/messages/{id}`.
pub fn message_path(message_id: &str) -> (r: String)
    ensures
        r@ == "/messages/"@ + message_id@,
{
    let mut out = String::from_str("/messages/");
    out.append(message_id);
    out
}

/// The path of one thread: `/threads/{root}`.
pub fn thread_path(root_id: &str) -> (r: String)
    ensures
        r@ == "/threads/"@ + root_id@,
{
    let mut out = String::from_str("/threads/");
    out.append(root_id);
    out
}

/// The replies collection of a thread: `/threads/{root}/replies`.
pub fn thread_replies_path(root_id: &str) -> (r: String)
    ensures
        r@ == "/threads/"@ + root_id@ + "/replies"@,
{
    join3("/threads/", root_id, "/replies")
}

/// The listing query of a collection path: `?limit={n}` with the clamped
/// page size, and `&cursor={c}` where a cursor is given.
pub open spec fn listing_query_spec(limit: Option<u32>, cursor: Option<&str>) -> Seq<char> {
    let q = "?limit="@ + dec_rep(clamped_limit(limit) as nat);
    match cursor {
        Some(c) => q + "&cursor="@ + c@,
        None => q,
    }
}

/// Append the listing query to a collection path.
fn push_listing_query(path: &mut String, limit: Option<u32>, cursor: Option<&str>)
    ensures
        final(path)@ == old(path)@ + listing_query_spec(limit, cursor),
{
    path.append("?limit=");
    path.append(u32_string(clamp_limit(limit)).as_str());
    if let Some(c) = cursor {
        path.append("&cursor=");
        path.append(c);
    }
}

/// The page-listing path of a channel's messages:
/// `/channels/{id}/messages?limit={n}[&cursor={c}]`.
pub fn messages_list_path(channel_id: &str, limit: Option<u32>, cursor: Option<&str>) -> (r:
    String)
    ensures
        r@ == "/channels/"@ + channel_id@ + "/messages"@ + listing_query_spec(limit, cursor),
{
    let mut path = channel_messages_path(channel_id);
    push_listing_query(&mut path, limit, cursor);
    path
}

/// The page-listing path of a thread's replies:
/// `/threads/{root}/replies?limit={n}[&cursor={c}]`.
pub fn thread_replies_list_path(root_id: &str, limit: Option<u32>, cursor: Option<&str>) -> (r:
    String)
    ensures
        r@ == "/threads/"@ + root_id@ + "/replies"@ + listing_query_spec(limit, cursor),
{
    let mut path = thread_replies_path(root_id);
    push_listing_query(&mut path, limit, cursor);
    path
}

} // verus!
