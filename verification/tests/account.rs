use codexmanager::account::{
    bulk_delete_event_message, cleanup_decide, cleanup_precheck, normalize_account_status,
    normalize_optional_label, normalize_optional_tags, normalize_optional_text,
    plan_account_update, plan_label_for_event, CleanupOutcome, DeleteUnavailableFreeResult,
    ResolvedAccountPlan,
};

#[test]
fn account_status_is_recognized_in_any_case() {
    assert_eq!(normalize_account_status(" Active "), Ok("active"));
    assert_eq!(normalize_account_status("DISABLED"), Ok("disabled"));
    assert_eq!(normalize_account_status("inactive"), Ok("disabled"));
    assert_eq!(
        normalize_account_status(" banned "),
        Err("unsupported account status:  banned ".to_string())
    );
}

#[test]
fn labels_notes_and_tags_are_normalized() {
    assert_eq!(normalize_optional_label(None), Ok(None));
    assert_eq!(normalize_optional_label(Some("  main  ")), Ok(Some("main")));
    assert_eq!(normalize_optional_label(Some("   ")), Err("label cannot be empty".to_string()));
    assert_eq!(normalize_optional_text(Some("  hi ")).as_deref(), Some("hi"));
    assert_eq!(normalize_optional_text(Some("  ")), None);
    assert_eq!(normalize_optional_text(None), None);
    assert_eq!(normalize_optional_tags(Some(" a , b,,  c ")).as_deref(), Some("a,b,c"));
    assert_eq!(normalize_optional_tags(Some(" , ,")), None);
    assert_eq!(normalize_optional_tags(Some("")), None);
    assert_eq!(normalize_optional_tags(Some("solo")).as_deref(), Some("solo"));
    assert_eq!(normalize_optional_tags(None), None);
}

#[test]
fn account_update_is_checked_in_order() {
    assert_eq!(
        plan_account_update("  ", Some(1), Some("bogus"), None, None, None).err(),
        Some("missing accountId".to_string())
    );
    assert_eq!(
        plan_account_update("acc", None, Some("bogus"), Some(" "), None, None).err(),
        Some("unsupported account status: bogus".to_string())
    );
    assert_eq!(
        plan_account_update("acc", None, None, Some(" "), None, None).err(),
        Some("label cannot be empty".to_string())
    );
    assert_eq!(
        plan_account_update("acc", None, None, None, None, None).err(),
        Some("missing account update fields".to_string())
    );
}

#[test]
fn account_update_plans_every_change() {
    let plan = plan_account_update(" acc-1 ", Some(-3), Some("Inactive"), Some(" Main "), Some(" "), Some("x, y"))
        .expect("valid update");
    assert_eq!(plan.account_id, "acc-1");
    assert_eq!(plan.sort, Some(-3));
    let sort_event = plan.sort_event.expect("sort event");
    assert_eq!(sort_event.event_type, "account_sort_update");
    assert_eq!(sort_event.message, "sort=-3");
    assert_eq!(plan.status, Some(("disabled", "manual_disable")));
    let (label, label_event) = plan.label.expect("label");
    assert_eq!(label, "Main");
    assert_eq!(label_event.message, "label=Main");
    assert!(plan.metadata_requested);
    assert_eq!(plan.note, None);
    assert_eq!(plan.tags.as_deref(), Some("x,y"));
    let metadata_event = plan.metadata_event.expect("metadata event");
    assert_eq!(metadata_event.event_type, "account_profile_update");
    assert_eq!(metadata_event.message, "note=- tags=x,y");

    let enable = plan_account_update("acc", None, Some("active"), None, None, None).expect("valid");
    assert_eq!(enable.status, Some(("active", "manual_enable")));
    assert!(enable.sort_event.is_none() && enable.metadata_event.is_none() && enable.label.is_none());

    let big = plan_account_update("acc", Some(i64::MIN), None, None, None, None).expect("valid");
    assert_eq!(big.sort_event.expect("event").message, "sort=-9223372036854775808");
}

#[test]
fn cleanup_decisions() {
    assert_eq!(cleanup_precheck(" Disabled ", Some(false)), Some(CleanupOutcome::SkippedDisabled));
    assert_eq!(cleanup_precheck("active", None), Some(CleanupOutcome::SkippedMissingUsage));
    assert_eq!(cleanup_precheck("active", Some(true)), Some(CleanupOutcome::SkippedAvailable));
    assert_eq!(cleanup_precheck("active", Some(false)), None);
    assert_eq!(cleanup_precheck("UNAVAILABLE", None), None);
    assert_eq!(cleanup_precheck("banned", Some(true)), None);

    assert_eq!(cleanup_decide(false, false, None), CleanupOutcome::SkippedMissingUsage);
    assert_eq!(cleanup_decide(true, false, None), CleanupOutcome::SkippedMissingToken);
    assert_eq!(cleanup_decide(true, true, None), CleanupOutcome::SkippedNonFree);
    assert_eq!(cleanup_decide(true, true, Some("plus")), CleanupOutcome::SkippedNonFree);
    assert_eq!(cleanup_decide(true, false, Some("free")), CleanupOutcome::SkippedMissingToken);
    assert_eq!(cleanup_decide(false, true, Some("free")), CleanupOutcome::Deleted);
}

#[test]
fn cleanup_tally_counts_each_account_once() {
    let mut result = DeleteUnavailableFreeResult::new();
    result.record(CleanupOutcome::SkippedDisabled, "a".to_string());
    result.record(CleanupOutcome::Deleted, "b".to_string());
    result.record(CleanupOutcome::SkippedNonFree, "c".to_string());
    result.record(CleanupOutcome::Deleted, "d".to_string());
    assert_eq!(result.scanned, 4);
    assert_eq!(result.deleted, 2);
    assert_eq!(result.skipped_disabled, 1);
    assert_eq!(result.skipped_non_free, 1);
    assert_eq!(result.deleted_account_ids, vec!["b".to_string(), "d".to_string()]);
}

#[test]
fn cleanup_event_names_the_plan() {
    let unknown = ResolvedAccountPlan { normalized: "unknown".to_string(), raw: Some("team-x".to_string()) };
    let free = ResolvedAccountPlan { normalized: "free".to_string(), raw: Some("FREE".to_string()) };
    let unknown_no_raw = ResolvedAccountPlan { normalized: "unknown".to_string(), raw: None };
    assert_eq!(plan_label_for_event(Some(&unknown)), Some("team-x"));
    assert_eq!(plan_label_for_event(Some(&free)), Some("free"));
    assert_eq!(plan_label_for_event(Some(&unknown_no_raw)), None);
    assert_eq!(plan_label_for_event(None), None);
    assert_eq!(
        bulk_delete_event_message(Some("free")),
        "bulk delete unavailable free account: plan=free"
    );
    assert_eq!(bulk_delete_event_message(None), "bulk delete unavailable free account");
}

#[test]
fn normalized_tags_normalize_to_themselves() {
    let once = normalize_optional_tags(Some("  ops ,, team-a ,\tbeta\n")).expect("tags");
    assert_eq!(once, "ops,team-a,beta");
    let twice = normalize_optional_tags(Some(once.as_str())).expect("tags");
    assert_eq!(twice, once);
}
