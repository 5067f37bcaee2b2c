use codexmanager::requestlog::{
    clamp_page, gateway_error_log_list_result, gateway_error_log_page_window,
    gateway_error_log_query_plan, normalize_page_size, normalize_stage_filter,
    request_log_read_limit, to_gateway_error_log_summary, GatewayErrorLog,
    DEFAULT_GATEWAY_ERROR_LOG_PAGE_SIZE, MAX_GATEWAY_ERROR_LOG_PAGE_SIZE,
};
use codexmanager::storage_rules::{
    flag_from_column, flag_to_column, normalize_error_log_window, normalize_request_log_limit,
};

#[test]
fn gateway_error_log_params_normalize_blank_stage_to_none() {
    assert_eq!(normalize_stage_filter(Some("all".to_string())), None);
    assert_eq!(
        normalize_stage_filter(Some("chatgpt_challenge_retry_without_compression".to_string()))
            .as_deref(),
        Some("chatgpt_challenge_retry_without_compression")
    );
}

#[test]
fn gateway_error_log_page_size_is_bounded() {
    assert_eq!(normalize_page_size(0), DEFAULT_GATEWAY_ERROR_LOG_PAGE_SIZE);
    assert_eq!(normalize_page_size(999), MAX_GATEWAY_ERROR_LOG_PAGE_SIZE);
}

#[test]
fn gateway_error_log_page_is_clamped_to_total_pages() {
    assert_eq!(clamp_page(5, 0, 10), 1);
    assert_eq!(clamp_page(9, 31, 10), 4);
}

#[test]
fn stage_filter_trims_and_ignores_case_of_all() {
    assert_eq!(normalize_stage_filter(None), None);
    assert_eq!(normalize_stage_filter(Some("   ".to_string())), None);
    assert_eq!(normalize_stage_filter(Some("  ALL ".to_string())), None);
    assert_eq!(normalize_stage_filter(Some(" stage_a ".to_string())).as_deref(), Some("stage_a"));
}

#[test]
fn page_size_and_page_edges() {
    assert_eq!(normalize_page_size(-3), 10);
    assert_eq!(normalize_page_size(1), 1);
    assert_eq!(normalize_page_size(200), 200);
    assert_eq!(normalize_page_size(201), 200);
    assert_eq!(clamp_page(-4, 31, 10), 1);
    assert_eq!(clamp_page(3, 30, 10), 3);
    assert_eq!(clamp_page(4, 30, 10), 3);
    assert_eq!(clamp_page(2, 5, -10), 1);
    assert_eq!(clamp_page(5, 0, 0), 1);
    assert_eq!(clamp_page(i64::MAX, i64::MAX - 9, 10), i64::MAX / 10);
    assert_eq!(clamp_page(-2, -7, 0), 1);
}

#[test]
fn page_window_offsets() {
    assert_eq!(gateway_error_log_page_window(3, 31, 10), (3, 20));
    assert_eq!(gateway_error_log_page_window(9, 31, 10), (4, 30));
    assert_eq!(gateway_error_log_page_window(2, 0, 10), (1, 0));
    let (stage, size) = gateway_error_log_query_plan(Some(" all ".to_string()), 0);
    assert_eq!(stage, None);
    assert_eq!(size, 10);
}

fn sample_log(index: i64) -> GatewayErrorLog {
    GatewayErrorLog {
        trace_id: Some(format!("trace-{index}")),
        key_id: Some("gk-test".to_string()),
        account_id: Some("acc-test".to_string()),
        request_path: "/v1/responses".to_string(),
        method: "POST".to_string(),
        stage: "compact_challenge_downgrade_retry".to_string(),
        error_kind: Some("cloudflare_challenge".to_string()),
        upstream_url: None,
        cf_ray: Some(format!("ray-{index}")),
        status_code: Some(403),
        compression_enabled: true,
        compression_retry_attempted: index % 2 == 0,
        message: format!("message-{index}"),
        created_at: 1_000 + index,
    }
}

#[test]
fn summaries_keep_every_field_and_order() {
    let summary = to_gateway_error_log_summary(sample_log(4));
    assert_eq!(summary.trace_id.as_deref(), Some("trace-4"));
    assert_eq!(summary.cf_ray.as_deref(), Some("ray-4"));
    assert!(summary.compression_retry_attempted);
    assert_eq!(summary.created_at, 1_004);
    let result = gateway_error_log_list_result(
        vec![sample_log(1), sample_log(2)],
        7,
        1,
        2,
        vec!["a".to_string()],
    );
    assert_eq!(result.items.len(), 2);
    assert_eq!(result.items[0].message, "message-1");
    assert_eq!(result.items[1].message, "message-2");
    assert_eq!((result.total, result.page, result.page_size), (7, 1, 2));
    assert_eq!(result.stages, vec!["a".to_string()]);
}

#[test]
fn store_limits_and_flags() {
    assert_eq!(request_log_read_limit(None), 200);
    assert_eq!(request_log_read_limit(Some(5)), 5);
    assert_eq!(normalize_request_log_limit(0), 200);
    assert_eq!(normalize_request_log_limit(-1), 200);
    assert_eq!(normalize_request_log_limit(50), 50);
    assert_eq!(normalize_request_log_limit(5000), 1000);
    assert_eq!(normalize_error_log_window(-5, 0), (0, 1));
    assert_eq!(normalize_error_log_window(10, 900), (10, 500));
    assert_eq!(flag_to_column(true), 1);
    assert_eq!(flag_to_column(false), 0);
    assert!(flag_from_column(7));
    assert!(!flag_from_column(0));
    assert!(flag_from_column(flag_to_column(true)));
}
