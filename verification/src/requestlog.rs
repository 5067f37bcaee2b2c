//! Paging and filtering rules of the gateway error log and request log views,
//! and the mapping of stored gateway error logs to what the view shows.
use crate::text::{eq_ignore_case, lemma_trim_idempotent, opt_string_view, str_eq_ignore_case, trim, trim_str};
use vstd::prelude::*;
use vstd::string::*;

verus! {

broadcast use vstd::string::group_string_axioms;

/// The page size used when none, or one below one, is asked for.
pub const DEFAULT_GATEWAY_ERROR_LOG_PAGE_SIZE: i64 = 10;

/// The largest page size that the gateway error log view serves.
pub const MAX_GATEWAY_ERROR_LOG_PAGE_SIZE: i64 = 200;

/// The number of request logs read when the caller gives no limit.
pub const DEFAULT_REQUEST_LOG_READ_LIMIT: i64 = 200;

/// The stage filter that the view applies: the trimmed text, or none where it
/// is absent, blank or `all` in any ASCII case.
pub open spec fn stage_filter_spec(value: Option<Seq<char>>) -> Option<Seq<char>> {
    let t = match value {
        Some(v) => trim(v),
        None => Seq::<char>::empty(),
    };
    if t.len() == 0 || eq_ignore_case(t, "all"@) {
        None
    } else {
        Some(t)
    }
}

/// The page size that the view serves.
pub open spec fn page_size_spec(value: i64) -> i64 {
    if value < 1 {
        DEFAULT_GATEWAY_ERROR_LOG_PAGE_SIZE
    } else if value < MAX_GATEWAY_ERROR_LOG_PAGE_SIZE {
        value
    } else {
        MAX_GATEWAY_ERROR_LOG_PAGE_SIZE
    }
}

/// Integer division rounded toward zero, as `/` on `i64` computes it.
pub open spec fn trunc_div(a: int, b: int) -> int {
    let q = (if a >= 0 {
        a
    } else {
        -a
    }) / (if b >= 0 {
        b
    } else {
        -b
    });
    if (a >= 0) == (b >= 0) {
        q
    } else {
        -q
    }
}

/// The number of pages that `total` items fill, at least one.
pub open spec fn total_pages_spec(total: i64, page_size: i64) -> int {
    if total <= 0 {
        1
    } else {
        let q = trunc_div(total + page_size - 1, page_size as int);
        if q < 1 {
            1
        } else {
            q
        }
    }
}

/// The page shown: the requested page, at least the first and at most the last.
pub open spec fn clamp_page_spec(page: i64, total: i64, page_size: i64) -> int {
    let p: int = if page < 1 {
        1
    } else {
        page as int
    };
    let last = total_pages_spec(total, page_size);
    if p < last {
        p
    } else {
        last
    }
}

/// The stage filter that the gateway error log view applies.
pub fn normalize_stage_filter(value: Option<String>) -> (r: Option<String>)
    ensures
        opt_string_view(r) == stage_filter_spec(opt_string_view(value)),
{
    let normalized = match &value {
        Some(v) => trim_str(v.as_str()),
        None => String::new(),
    };
    if normalized.as_str().is_empty() || str_eq_ignore_case(normalized.as_str(), "all") {
        None
    } else {
        Some(normalized)
    }
}

/// The page size that the gateway error log view serves: the default below
/// one, at most the largest size.
pub fn normalize_page_size(value: i64) -> (r: i64)
    ensures
        r == page_size_spec(value),
        1 <= r <= MAX_GATEWAY_ERROR_LOG_PAGE_SIZE,
{
    if value < 1 {
        DEFAULT_GATEWAY_ERROR_LOG_PAGE_SIZE
    } else if value < MAX_GATEWAY_ERROR_LOG_PAGE_SIZE {
        value
    } else {
        MAX_GATEWAY_ERROR_LOG_PAGE_SIZE
    }
}

proof fn lemma_negative_divisor_one_page(total: i64, page_size: i64)
    requires
        total >= 1,
        page_size < 0,
    ensures
        trunc_div(total + page_size - 1, page_size as int) <= 1,
{
    let a: int = total + page_size - 1;
    let b: int = -(page_size as int);
    if a < 0 {
        assert(-a <= b);
        assert((-a) / b <= 1) by (nonlinear_arith)
            requires
                0 < -a <= b,
        ;
    } else {
        assert(a / b >= 0) by (nonlinear_arith)
            requires
                a >= 0,
                b > 0,
        ;
    }
}

/// The page shown for a request of `page`, when `total` items fill pages of
/// `page_size`: at least the first, at most the last, and the first where
/// there are no items.
pub fn clamp_page(page: i64, total: i64, page_size: i64) -> (r: i64)
    requires
        total > 0 ==> (page_size != 0 && total + page_size - 1 <= i64::MAX),
    ensures
        r == clamp_page_spec(page, total, page_size),
        r >= 1,
{
    let normalized_page = if page < 1 {
        1
    } else {
        page
    };
    let total_pages: i64 = if total <= 0 {
        1
    } else if page_size > 0 {
        let q = (total + (page_size - 1)) / page_size;
        if q < 1 {
            1
        } else {
            q
        }
    } else {
        proof {
            lemma_negative_divisor_one_page(total, page_size);
        }
        1
    };
    if normalized_page < total_pages {
        normalized_page
    } else {
        total_pages
    }
}

/// The first item of a page.
pub open spec fn page_offset_spec(page: int, page_size: int) -> int {
    (page - 1) * page_size
}

/// What a gateway error log read asks the store for: the stage filter and the
/// page size.
pub fn gateway_error_log_query_plan(stage_filter: Option<String>, page_size: i64) -> (r: (
    Option<String>,
    i64,
))
    ensures
        opt_string_view(r.0) == stage_filter_spec(opt_string_view(stage_filter)),
        r.1 == page_size_spec(page_size),
{
    (normalize_stage_filter(stage_filter), normalize_page_size(page_size))
}

/// The page shown and the offset of its first item, once the store has
/// counted `total` matching items.
pub fn gateway_error_log_page_window(page: i64, total: i64, page_size: i64) -> (r: (i64, i64))
    requires
        1 <= page_size <= MAX_GATEWAY_ERROR_LOG_PAGE_SIZE,
        total + page_size - 1 <= i64::MAX,
    ensures
        r.0 == clamp_page_spec(page, total, page_size),
        r.1 == page_offset_spec(r.0 as int, page_size as int),
        0 <= r.1,
        total > 0 ==> r.1 < total,
{
    let shown = clamp_page(page, total, page_size);
    proof {
        if total > 0 {
            let q: int = (total + page_size - 1) / (page_size as int);
            assert(trunc_div(total + page_size - 1, page_size as int) == q);
            assert(shown <= (if q < 1 {
                1
            } else {
                q
            }));
            assert((shown - 1) * page_size < total) by (nonlinear_arith)
                requires
                    1 <= shown <= (if q < 1 {
                        1
                    } else {
                        q
                    }),
                    q == (total + page_size - 1) / (page_size as int),
                    total >= 1,
                    page_size >= 1,
            ;
        } else {
            assert(shown == 1);
        }
        assert((shown - 1) * page_size >= 0) by (nonlinear_arith)
            requires
                shown >= 1,
                page_size >= 1,
        ;
    }
    let offset = (shown - 1) * page_size;
    (shown, offset)
}

/// The number of request logs that a read asks for when the caller gives none.
pub fn request_log_read_limit(limit: Option<i64>) -> (r: i64)
    ensures
        r == match limit {
            Some(v) => v,
            None => DEFAULT_REQUEST_LOG_READ_LIMIT,
        },
{
    match limit {
        Some(v) => v,
        None => DEFAULT_REQUEST_LOG_READ_LIMIT,
    }
}

/// One stored gateway error log.
pub struct GatewayErrorLog {
    pub trace_id: Option<String>,
    pub key_id: Option<String>,
    pub account_id: Option<String>,
    pub request_path: String,
    pub method: String,
    pub stage: String,
    pub error_kind: Option<String>,
    pub upstream_url: Option<String>,
    pub cf_ray: Option<String>,
    pub status_code: Option<i64>,
    pub compression_enabled: bool,
    pub compression_retry_attempted: bool,
    pub message: String,
    pub created_at: i64,
}

/// One gateway error log as the view shows it.
pub struct GatewayErrorLogSummary {
    pub trace_id: Option<String>,
    pub key_id: Option<String>,
    pub account_id: Option<String>,
    pub request_path: String,
    pub method: String,
    pub stage: String,
    pub error_kind: Option<String>,
    pub upstream_url: Option<String>,
    pub cf_ray: Option<String>,
    pub status_code: Option<i64>,
    pub compression_enabled: bool,
    pub compression_retry_attempted: bool,
    pub message: String,
    pub created_at: i64,
}

/// One page of the gateway error log view, with the stages known to the store.
pub struct GatewayErrorLogListResult {
    pub items: Vec<GatewayErrorLogSummary>,
    pub total: i64,
    pub page: i64,
    pub page_size: i64,
    pub stages: Vec<String>,
}

/// Whether a summary shows exactly the fields of a stored log.
pub open spec fn summary_of(item: GatewayErrorLog, s: GatewayErrorLogSummary) -> bool {
    &&& s.trace_id == item.trace_id
    &&& s.key_id == item.key_id
    &&& s.account_id == item.account_id
    &&& s.request_path == item.request_path
    &&& s.method == item.method
    &&& s.stage == item.stage
    &&& s.error_kind == item.error_kind
    &&& s.upstream_url == item.upstream_url
    &&& s.cf_ray == item.cf_ray
    &&& s.status_code == item.status_code
    &&& s.compression_enabled == item.compression_enabled
    &&& s.compression_retry_attempted == item.compression_retry_attempted
    &&& s.message == item.message
    &&& s.created_at == item.created_at
}

/// The summary that the view shows of a stored log: every field as stored.
pub fn to_gateway_error_log_summary(item: GatewayErrorLog) -> (r: GatewayErrorLogSummary)
    ensures
        summary_of(item, r),
{
    GatewayErrorLogSummary {
        trace_id: item.trace_id,
        key_id: item.key_id,
        account_id: item.account_id,
        request_path: item.request_path,
        method: item.method,
        stage: item.stage,
        error_kind: item.error_kind,
        upstream_url: item.upstream_url,
        cf_ray: item.cf_ray,
        status_code: item.status_code,
        compression_enabled: item.compression_enabled,
        compression_retry_attempted: item.compression_retry_attempted,
        message: item.message,
        created_at: item.created_at,
    }
}

/// Assembles one page of the view from the logs that the store returned, in
/// their order.
pub fn gateway_error_log_list_result(
    items: Vec<GatewayErrorLog>,
    total: i64,
    page: i64,
    page_size: i64,
    stages: Vec<String>,
) -> (r: GatewayErrorLogListResult)
    ensures
        r.items@.len() == items@.len(),
        forall|i: int| 0 <= i < items@.len() ==> summary_of(items@[i], #[trigger] r.items@[i]),
        r.total == total,
        r.page == page,
        r.page_size == page_size,
        r.stages == stages,
{
    let ghost original = items@;
    let mut summaries: Vec<GatewayErrorLogSummary> = Vec::new();
    let mut rest = items;
    while rest.len() > 0
        invariant
            summaries@.len() + rest@.len() == original.len(),
            rest@ == original.skip(summaries@.len() as int),
            forall|i: int|
                0 <= i < summaries@.len() ==> summary_of(original[i], #[trigger] summaries@[i]),
        decreases rest@.len(),
    {
        let item = rest.remove(0);
        proof {
            assert(item == original[summaries@.len() as int]);
            assert(rest@ =~= original.skip(summaries@.len() + 1int));
        }
        summaries.push(to_gateway_error_log_summary(item));
    }
    GatewayErrorLogListResult { items: summaries, total, page, page_size, stages }
}

/// Normalizing a stage filter that is already normalized changes nothing.
pub proof fn lemma_stage_filter_idempotent(value: Option<Seq<char>>)
    ensures
        stage_filter_spec(stage_filter_spec(value)) == stage_filter_spec(value),
{
    if let Some(v) = value {
        lemma_trim_idempotent(v);
    }
    assert(trim(Seq::<char>::empty()) == Seq::<char>::empty()) by {
        assert(crate::text::trim_start(Seq::<char>::empty()) == Seq::<char>::empty());
        assert(crate::text::trim_end(Seq::<char>::empty()) == Seq::<char>::empty());
    }
}

/// The page size served is always between one and the largest size, and
/// normalizing it again changes nothing.
pub proof fn lemma_page_size_bounded_and_idempotent(value: i64)
    ensures
        1 <= page_size_spec(value) <= MAX_GATEWAY_ERROR_LOG_PAGE_SIZE,
        page_size_spec(page_size_spec(value)) == page_size_spec(value),
{
}

/// The page shown is never before the first page nor after the last one.
pub proof fn lemma_shown_page_in_range(page: i64, total: i64, page_size: i64)
    ensures
        1 <= clamp_page_spec(page, total, page_size) <= total_pages_spec(total, page_size),
        1 <= page <= total_pages_spec(total, page_size) ==> clamp_page_spec(page, total, page_size)
            == page,
{
}

} // verus!
