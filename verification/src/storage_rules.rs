//! The rules that the log store applies around its queries: how many rows a
//! listing may return, where a page starts, and how flags are kept in columns.
use vstd::prelude::*;

verus! {

/// The number of request logs listed when the limit is zero or negative.
pub const DEFAULT_REQUEST_LOG_LIST_LIMIT: i64 = 200;

/// The most request logs that one listing returns.
pub const MAX_REQUEST_LOG_LIST_LIMIT: i64 = 1000;

/// The most gateway error logs that one page returns.
pub const MAX_GATEWAY_ERROR_LOG_LIST_LIMIT: i64 = 500;

/// The number of request logs that a listing returns at most.
pub open spec fn request_log_limit_spec(limit: i64) -> i64 {
    if limit <= 0 {
        DEFAULT_REQUEST_LOG_LIST_LIMIT
    } else if limit < MAX_REQUEST_LOG_LIST_LIMIT {
        limit
    } else {
        MAX_REQUEST_LOG_LIST_LIMIT
    }
}

/// The row limit of a request log listing: the default for a limit of zero
/// or below, at most the largest limit.
pub fn normalize_request_log_limit(limit: i64) -> (r: i64)
    ensures
        r == request_log_limit_spec(limit),
        1 <= r <= MAX_REQUEST_LOG_LIST_LIMIT,
{
    if limit <= 0 {
        DEFAULT_REQUEST_LOG_LIST_LIMIT
    } else if limit < MAX_REQUEST_LOG_LIST_LIMIT {
        limit
    } else {
        MAX_REQUEST_LOG_LIST_LIMIT
    }
}

/// The offset and row limit of a gateway error log page: the offset at least
/// zero, the limit between one and the largest limit.
pub fn normalize_error_log_window(offset: i64, limit: i64) -> (r: (i64, i64))
    ensures
        r.0 == if offset < 0 {
            0
        } else {
            offset
        },
        r.1 == if limit < 1 {
            1
        } else if limit > MAX_GATEWAY_ERROR_LOG_LIST_LIMIT {
            MAX_GATEWAY_ERROR_LOG_LIST_LIMIT
        } else {
            limit
        },
{
    let normalized_offset = if offset < 0 {
        0
    } else {
        offset
    };
    let normalized_limit = if limit < 1 {
        1
    } else if limit > MAX_GATEWAY_ERROR_LOG_LIST_LIMIT {
        MAX_GATEWAY_ERROR_LOG_LIST_LIMIT
    } else {
        limit
    };
    (normalized_offset, normalized_limit)
}

/// The column value that stores a flag: one for set, zero for clear.
pub fn flag_to_column(flag: bool) -> (r: i64)
    ensures
        r == if flag {
            1i64
        } else {
            0i64
        },
{
    if flag {
        1
    } else {
        0
    }
}

/// The flag that a column value stands for: set unless it is zero.
pub fn flag_from_column(value: i64) -> (r: bool)
    ensures
        r == (value != 0),
{
    value != 0
}

/// A flag written to its column and read back is the flag that was written.
pub proof fn lemma_flag_column_round_trip(flag: bool)
    ensures
        ((if flag {
            1i64
        } else {
            0i64
        }) != 0) == flag,
{
}

/// Normalizing a request log limit a second time changes nothing.
pub proof fn lemma_request_log_limit_idempotent(limit: i64)
    ensures
        request_log_limit_spec(request_log_limit_spec(limit)) == request_log_limit_spec(limit),
{
}

} // verus!
