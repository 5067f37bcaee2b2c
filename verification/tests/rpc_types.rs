use codexmanager::rpc_types::{AccountListParams, AccountSummary};

#[test]
fn account_list_params_default_and_normalized() {
    let d = AccountListParams::default();
    assert_eq!((d.page, d.page_size), (1, 5));
    assert!(d.query.is_none() && d.filter.is_none() && d.group_filter.is_none());

    let n = AccountListParams {
        page: 0,
        page_size: -2,
        query: Some("q".to_string()),
        filter: Some("f".to_string()),
        group_filter: None,
    }
    .normalized();
    assert_eq!((n.page, n.page_size), (1, 5));
    assert_eq!(n.query.as_deref(), Some("q"));
    assert_eq!(n.filter.as_deref(), Some("f"));

    let kept = AccountListParams { page: 3, page_size: 50, query: None, filter: None, group_filter: Some("g".to_string()) }
        .normalized();
    assert_eq!((kept.page, kept.page_size), (3, 50));
    assert_eq!(kept.group_filter.as_deref(), Some("g"));
    let again = kept.normalized();
    assert_eq!((again.page, again.page_size), (3, 50));
}

#[test]
fn account_summary_holds_its_fields() {
    let summary = AccountSummary {
        id: "acc-1".to_string(),
        label: "主账号".to_string(),
        group_name: Some("TEAM".to_string()),
        sort: 10,
    };
    assert_eq!(summary.sort, 10);
    assert_eq!(summary.group_name.as_deref(), Some("TEAM"));
}
