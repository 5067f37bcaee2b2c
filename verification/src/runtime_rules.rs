//! Admission rules of the HTTP front door: which paths skip the request
//! queue, and the smallest queues the service runs with.
use crate::text::str_eq;
use vstd::prelude::*;

verus! {

/// The smallest queue for ordinary requests.
pub const HTTP_QUEUE_MIN: usize = 64;

/// The smallest queue for streaming requests.
pub const HTTP_STREAM_QUEUE_MIN: usize = 16;

/// Whether a request path is served without waiting in the queue: the
/// health and metrics endpoints.
pub fn should_bypass_queue(path: &str) -> (r: bool)
    ensures
        r == (path@ == "/health"@ || path@ == "/metrics"@),
{
    str_eq(path, "/health") || str_eq(path, "/metrics")
}

/// The size of the ordinary request queue for a requested size: never below
/// the minimum.
pub fn http_queue_size(requested: usize) -> (r: usize)
    ensures
        r == if requested < HTTP_QUEUE_MIN {
            HTTP_QUEUE_MIN
        } else {
            requested
        },
        r >= HTTP_QUEUE_MIN,
{
    if requested < HTTP_QUEUE_MIN {
        HTTP_QUEUE_MIN
    } else {
        requested
    }
}

/// The size of the streaming request queue for a requested size: never
/// below the minimum.
pub fn http_stream_queue_size(requested: usize) -> (r: usize)
    ensures
        r == if requested < HTTP_STREAM_QUEUE_MIN {
            HTTP_STREAM_QUEUE_MIN
        } else {
            requested
        },
        r >= HTTP_STREAM_QUEUE_MIN,
{
    if requested < HTTP_STREAM_QUEUE_MIN {
        HTTP_STREAM_QUEUE_MIN
    } else {
        requested
    }
}

} // verus!
