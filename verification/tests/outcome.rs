use codexmanager::outcome::{
    decide_after_cached_snapshot, decide_upstream_outcome, needs_cached_snapshot, CooldownAction,
    OutcomeLog, OutcomePlan, OutcomeStep, UpstreamOutcomeDecision,
};

/// Runs both steps; `snapshot_exhausted` is what the cached usage snapshot says.
fn decide(status: u16, official: bool, challenge: bool, more: bool, snapshot_exhausted: bool) -> OutcomePlan {
    match decide_upstream_outcome(status, official, challenge, more) {
        OutcomeStep::Decided(plan) => plan,
        OutcomeStep::CheckCachedSnapshot => {
            let exhausted = needs_cached_snapshot(status, official) && snapshot_exhausted;
            decide_after_cached_snapshot(status, official, more, exhausted)
        }
    }
}

#[test]
fn official_status_404_with_more_candidates_keeps_upstream_response() {
    let plan = decide(404, true, false, true, false);
    assert!(matches!(plan.decision, UpstreamOutcomeDecision::RespondUpstream));
}

#[test]
fn custom_status_404_with_more_candidates_triggers_failover() {
    let plan = decide(404, false, false, true, false);
    assert!(matches!(plan.decision, UpstreamOutcomeDecision::Failover));
}

#[test]
fn official_status_429_with_more_candidates_triggers_failover() {
    let plan = decide(429, true, false, true, false);
    assert!(matches!(plan.decision, UpstreamOutcomeDecision::Failover));
}

#[test]
fn status_429_on_last_candidate_keeps_upstream_response() {
    let plan = decide(429, true, false, false, false);
    assert!(matches!(plan.decision, UpstreamOutcomeDecision::RespondUpstream));
}

#[test]
fn official_status_401_with_more_candidates_keeps_upstream_response() {
    let plan = decide(401, true, false, true, false);
    assert!(matches!(plan.decision, UpstreamOutcomeDecision::RespondUpstream));
}

#[test]
fn challenge_with_more_candidates_triggers_failover() {
    let plan = decide(403, true, true, true, false);
    assert!(matches!(plan.decision, UpstreamOutcomeDecision::Failover));
}

#[test]
fn challenge_on_last_candidate_keeps_upstream_response() {
    let plan = decide(403, true, true, false, false);
    assert!(matches!(plan.decision, UpstreamOutcomeDecision::RespondUpstream));
}

#[test]
fn official_status_500_with_more_candidates_keeps_upstream_response() {
    let plan = decide(500, true, false, true, false);
    assert!(matches!(plan.decision, UpstreamOutcomeDecision::RespondUpstream));
}

#[test]
fn status_500_on_last_candidate_keeps_upstream_response() {
    let plan = decide(500, true, false, false, false);
    assert!(matches!(plan.decision, UpstreamOutcomeDecision::RespondUpstream));
}

#[test]
fn official_usage_exhausted_with_more_candidates_triggers_failover() {
    let plan = decide(429, true, false, true, true);
    assert!(matches!(plan.decision, UpstreamOutcomeDecision::Failover));
}

#[test]
fn official_usage_exhausted_does_not_override_401() {
    let plan = decide(401, true, false, true, true);
    assert!(matches!(plan.decision, UpstreamOutcomeDecision::RespondUpstream));
}

#[test]
fn side_effects_of_each_branch() {
    let success = decide(204, true, true, true, true);
    assert_eq!(success.decision, UpstreamOutcomeDecision::RespondUpstream);
    assert!(success.clear_cooldown);
    assert_eq!(success.log.message(), None);

    let challenge = decide(403, false, true, true, false);
    assert_eq!(challenge.cooldown, CooldownAction::Challenge);
    assert_eq!(challenge.log.message(), Some("upstream challenge blocked"));

    let official_limited = decide(429, true, false, false, false);
    assert_eq!(official_limited.cooldown, CooldownAction::ForStatus);
    assert!(official_limited.enqueue_usage_refresh);
    assert_eq!(official_limited.log, OutcomeLog::RateLimited);

    let custom_not_found = decide(404, false, false, true, false);
    assert_eq!(custom_not_found.log.message(), Some("upstream not-found failover"));
    assert!(!custom_not_found.enqueue_usage_refresh);

    let custom_server_error = decide(503, false, false, false, false);
    assert_eq!(custom_server_error.decision, UpstreamOutcomeDecision::RespondUpstream);
    assert_eq!(custom_server_error.log.message(), Some("upstream server error"));

    let exhausted = decide(500, true, false, true, true);
    assert_eq!(exhausted.decision, UpstreamOutcomeDecision::Failover);
    assert_eq!(exhausted.cooldown, CooldownAction::Default);
    assert_eq!(exhausted.log.message(), Some("upstream account exhausted"));

    let custom_exhausted = decide(400, false, false, true, true);
    assert_eq!(custom_exhausted.cooldown, CooldownAction::ForStatus);
    assert_eq!(custom_exhausted.log.message(), Some("upstream non-success"));

    let plain = decide(400, true, false, true, false);
    assert_eq!(plain.decision, UpstreamOutcomeDecision::RespondUpstream);
    assert_eq!(plain.cooldown, CooldownAction::Keep);
    assert!(plain.enqueue_usage_refresh);
}

#[test]
fn no_failover_without_candidates_for_any_status() {
    for status in [200u16, 401, 403, 404, 429, 500, 503, 400] {
        for official in [true, false] {
            for challenge in [true, false] {
                for exhausted in [true, false] {
                    let plan = decide(status, official, challenge, false, exhausted);
                    assert_eq!(plan.decision, UpstreamOutcomeDecision::RespondUpstream);
                }
            }
        }
    }
}

#[test]
fn every_outcome_log_has_its_message() {
    assert_eq!(OutcomeLog::Success.message(), None);
    assert_eq!(OutcomeLog::ChallengeBlocked.message(), Some("upstream challenge blocked"));
    assert_eq!(OutcomeLog::RateLimited.message(), Some("upstream rate-limited"));
    assert_eq!(OutcomeLog::Unauthorized.message(), Some("upstream unauthorized"));
    assert_eq!(OutcomeLog::NotFoundFailover.message(), Some("upstream not-found failover"));
    assert_eq!(OutcomeLog::ServerError.message(), Some("upstream server error"));
    assert_eq!(OutcomeLog::AccountExhausted.message(), Some("upstream account exhausted"));
    assert_eq!(OutcomeLog::NonSuccess.message(), Some("upstream non-success"));
}
