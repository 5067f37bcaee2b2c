//! What the gateway does with an upstream answer: respond with it or fail
//! over to the next candidate account, and which cooldown, usage refresh and
//! log line go with that.
//!
//! The decision is made in two steps. The first needs only the status and
//! what is known of the target and the answer; where it cannot decide, the
//! caller reads the cached usage snapshot of the account and the second step
//! finishes the decision with what that read says.
use vstd::prelude::*;

verus! {

/// Whether to answer the client with the upstream response or try another account.
#[derive(Clone, Copy, Debug, PartialEq, Eq, Structural)]
pub enum UpstreamOutcomeDecision {
    Failover,
    RespondUpstream,
}

/// The cooldown to put the account into.
#[derive(Clone, Copy, Debug, PartialEq, Eq, Structural)]
pub enum CooldownAction {
    /// No cooldown.
    Keep,
    /// The cooldown for a challenge page.
    Challenge,
    /// The default cooldown.
    Default,
    /// The cooldown chosen by the status code.
    ForStatus,
}

/// The log line of a gateway result.
#[derive(Clone, Copy, Debug, PartialEq, Eq, Structural)]
pub enum OutcomeLog {
    /// A success, logged without a message.
    Success,
    ChallengeBlocked,
    RateLimited,
    Unauthorized,
    NotFoundFailover,
    ServerError,
    AccountExhausted,
    NonSuccess,
}

/// The message logged with the status of a gateway result, none for a success.
pub open spec fn outcome_message_spec(log: OutcomeLog) -> Option<Seq<char>> {
    match log {
        OutcomeLog::Success => None,
        OutcomeLog::ChallengeBlocked => Some("upstream challenge blocked"@),
        OutcomeLog::RateLimited => Some("upstream rate-limited"@),
        OutcomeLog::Unauthorized => Some("upstream unauthorized"@),
        OutcomeLog::NotFoundFailover => Some("upstream not-found failover"@),
        OutcomeLog::ServerError => Some("upstream server error"@),
        OutcomeLog::AccountExhausted => Some("upstream account exhausted"@),
        OutcomeLog::NonSuccess => Some("upstream non-success"@),
    }
}

impl OutcomeLog {
    /// The message logged with the status, none for a success.
    pub fn message(&self) -> (r: Option<&'static str>)
        ensures
            match r {
                Some(m) => outcome_message_spec(*self) == Some(m@),
                None => outcome_message_spec(*self) is None,
            },
    {
        match self {
            OutcomeLog::Success => None,
            OutcomeLog::ChallengeBlocked => Some("upstream challenge blocked"),
            OutcomeLog::RateLimited => Some("upstream rate-limited"),
            OutcomeLog::Unauthorized => Some("upstream unauthorized"),
            OutcomeLog::NotFoundFailover => Some("upstream not-found failover"),
            OutcomeLog::ServerError => Some("upstream server error"),
            OutcomeLog::AccountExhausted => Some("upstream account exhausted"),
            OutcomeLog::NonSuccess => Some("upstream non-success"),
        }
    }
}

/// Everything the gateway does with one upstream answer.
#[derive(Clone, Copy, Debug, PartialEq, Eq, Structural)]
pub struct OutcomePlan {
    pub decision: UpstreamOutcomeDecision,
    /// Whether the account's cooldown is cleared.
    pub clear_cooldown: bool,
    pub cooldown: CooldownAction,
    /// Whether a usage refresh of the account is queued.
    pub enqueue_usage_refresh: bool,
    pub log: OutcomeLog,
}

/// The first step's result: a complete plan, or the need to read the cached
/// usage snapshot (after a usage refresh has been queued).
#[derive(Clone, Copy, Debug, PartialEq, Eq, Structural)]
pub enum OutcomeStep {
    Decided(OutcomePlan),
    CheckCachedSnapshot,
}

/// Whether a status is a success (2xx).
pub open spec fn is_success(status: u16) -> bool {
    200 <= status <= 299
}

/// Whether a status is a server error (5xx).
pub open spec fn is_server_error(status: u16) -> bool {
    500 <= status <= 599
}

/// Fail over where more candidates remain, else respond upstream.
pub open spec fn failover_if(more: bool) -> UpstreamOutcomeDecision {
    if more {
        UpstreamOutcomeDecision::Failover
    } else {
        UpstreamOutcomeDecision::RespondUpstream
    }
}

/// A plan.
pub open spec fn plan(
    decision: UpstreamOutcomeDecision,
    clear_cooldown: bool,
    cooldown: CooldownAction,
    enqueue_usage_refresh: bool,
    log: OutcomeLog,
) -> OutcomePlan {
    OutcomePlan { decision, clear_cooldown, cooldown, enqueue_usage_refresh, log }
}

/// The first step of the decision.
pub open spec fn first_step_spec(
    status: u16,
    is_official_target: bool,
    is_challenge: bool,
    more: bool,
) -> OutcomeStep {
    if is_success(status) {
        OutcomeStep::Decided(
            plan(
                UpstreamOutcomeDecision::RespondUpstream,
                true,
                CooldownAction::Keep,
                false,
                OutcomeLog::Success,
            ),
        )
    } else if is_challenge {
        OutcomeStep::Decided(
            plan(
                failover_if(more),
                false,
                CooldownAction::Challenge,
                false,
                OutcomeLog::ChallengeBlocked,
            ),
        )
    } else if is_official_target && status == 429 {
        OutcomeStep::Decided(
            plan(
                failover_if(more),
                false,
                CooldownAction::ForStatus,
                true,
                OutcomeLog::RateLimited,
            ),
        )
    } else if is_official_target && status == 401 {
        OutcomeStep::Decided(
            plan(
                UpstreamOutcomeDecision::RespondUpstream,
                false,
                CooldownAction::Keep,
                false,
                OutcomeLog::Unauthorized,
            ),
        )
    } else if !is_official_target && status == 404 && more {
        OutcomeStep::Decided(
            plan(
                UpstreamOutcomeDecision::Failover,
                false,
                CooldownAction::ForStatus,
                false,
                OutcomeLog::NotFoundFailover,
            ),
        )
    } else if !is_official_target && status == 429 {
        OutcomeStep::Decided(
            plan(
                failover_if(more),
                false,
                CooldownAction::ForStatus,
                false,
                OutcomeLog::RateLimited,
            ),
        )
    } else if !is_official_target && is_server_error(status) {
        OutcomeStep::Decided(
            plan(
                failover_if(more),
                false,
                CooldownAction::ForStatus,
                false,
                OutcomeLog::ServerError,
            ),
        )
    } else {
        OutcomeStep::CheckCachedSnapshot
    }
}

/// The second step: `snapshot_says_failover` is what the cached usage
/// snapshot of the account says (exhausted or not); it is read only where
/// the target is not official or the status is not 401.
pub open spec fn second_step_spec(
    status: u16,
    is_official_target: bool,
    more: bool,
    snapshot_says_failover: bool,
) -> OutcomePlan {
    let should_failover = (!is_official_target || status != 401) && snapshot_says_failover;
    if should_failover {
        if is_official_target {
            plan(
                failover_if(more),
                false,
                CooldownAction::Default,
                true,
                OutcomeLog::AccountExhausted,
            )
        } else {
            plan(failover_if(more), false, CooldownAction::ForStatus, true, OutcomeLog::NonSuccess)
        }
    } else {
        plan(
            UpstreamOutcomeDecision::RespondUpstream,
            false,
            CooldownAction::Keep,
            true,
            OutcomeLog::NonSuccess,
        )
    }
}

/// The first step of deciding what to do with an upstream answer of `status`.
/// `is_official_target` is whether the upstream is the official OpenAI one,
/// `is_challenge` whether the answer is a challenge page, and
/// `has_more_candidates` whether another account can still be tried.
pub fn decide_upstream_outcome(
    status: u16,
    is_official_target: bool,
    is_challenge: bool,
    has_more_candidates: bool,
) -> (r: OutcomeStep)
    ensures
        r == first_step_spec(status, is_official_target, is_challenge, has_more_candidates),
{
    let more = if has_more_candidates {
        UpstreamOutcomeDecision::Failover
    } else {
        UpstreamOutcomeDecision::RespondUpstream
    };
    if 200 <= status && status <= 299 {
        return OutcomeStep::Decided(
            OutcomePlan {
                decision: UpstreamOutcomeDecision::RespondUpstream,
                clear_cooldown: true,
                cooldown: CooldownAction::Keep,
                enqueue_usage_refresh: false,
                log: OutcomeLog::Success,
            },
        );
    }
    if is_challenge {
        return OutcomeStep::Decided(
            OutcomePlan {
                decision: more,
                clear_cooldown: false,
                cooldown: CooldownAction::Challenge,
                enqueue_usage_refresh: false,
                log: OutcomeLog::ChallengeBlocked,
            },
        );
    }
    if is_official_target && status == 429 {
        return OutcomeStep::Decided(
            OutcomePlan {
                decision: more,
                clear_cooldown: false,
                cooldown: CooldownAction::ForStatus,
                enqueue_usage_refresh: true,
                log: OutcomeLog::RateLimited,
            },
        );
    }
    if is_official_target && status == 401 {
        return OutcomeStep::Decided(
            OutcomePlan {
                decision: UpstreamOutcomeDecision::RespondUpstream,
                clear_cooldown: false,
                cooldown: CooldownAction::Keep,
                enqueue_usage_refresh: false,
                log: OutcomeLog::Unauthorized,
            },
        );
    }
    if !is_official_target {
        if status == 404 && has_more_candidates {
            return OutcomeStep::Decided(
                OutcomePlan {
                    decision: UpstreamOutcomeDecision::Failover,
                    clear_cooldown: false,
                    cooldown: CooldownAction::ForStatus,
                    enqueue_usage_refresh: false,
                    log: OutcomeLog::NotFoundFailover,
                },
            );
        }
        if status == 429 {
            return OutcomeStep::Decided(
                OutcomePlan {
                    decision: more,
                    clear_cooldown: false,
                    cooldown: CooldownAction::ForStatus,
                    enqueue_usage_refresh: false,
                    log: OutcomeLog::RateLimited,
                },
            );
        }
        if 500 <= status && status <= 599 {
            return OutcomeStep::Decided(
                OutcomePlan {
                    decision: more,
                    clear_cooldown: false,
                    cooldown: CooldownAction::ForStatus,
                    enqueue_usage_refresh: false,
                    log: OutcomeLog::ServerError,
                },
            );
        }
    }
    OutcomeStep::CheckCachedSnapshot
}

/// Whether the cached usage snapshot has to be read at all in the second step.
pub fn needs_cached_snapshot(status: u16, is_official_target: bool) -> (r: bool)
    ensures
        r == (!is_official_target || status != 401),
{
    !is_official_target || status != 401
}

/// The second step of the decision, once the cached usage snapshot has been
/// read (pass `false` where it was not read).
pub fn decide_after_cached_snapshot(
    status: u16,
    is_official_target: bool,
    has_more_candidates: bool,
    snapshot_says_failover: bool,
) -> (r: OutcomePlan)
    ensures
        r == second_step_spec(
            status,
            is_official_target,
            has_more_candidates,
            snapshot_says_failover,
        ),
{
    let more = if has_more_candidates {
        UpstreamOutcomeDecision::Failover
    } else {
        UpstreamOutcomeDecision::RespondUpstream
    };
    let should_failover = (!is_official_target || status != 401) && snapshot_says_failover;
    if should_failover {
        if is_official_target {
            OutcomePlan {
                decision: more,
                clear_cooldown: false,
                cooldown: CooldownAction::Default,
                enqueue_usage_refresh: true,
                log: OutcomeLog::AccountExhausted,
            }
        } else {
            OutcomePlan {
                decision: more,
                clear_cooldown: false,
                cooldown: CooldownAction::ForStatus,
                enqueue_usage_refresh: true,
                log: OutcomeLog::NonSuccess,
            }
        }
    } else {
        OutcomePlan {
            decision: UpstreamOutcomeDecision::RespondUpstream,
            clear_cooldown: false,
            cooldown: CooldownAction::Keep,
            enqueue_usage_refresh: true,
            log: OutcomeLog::NonSuccess,
        }
    }
}

/// The full decision, whatever the cached snapshot says.
pub open spec fn outcome_spec(
    status: u16,
    is_official_target: bool,
    is_challenge: bool,
    more: bool,
    snapshot_says_failover: bool,
) -> OutcomePlan {
    match first_step_spec(status, is_official_target, is_challenge, more) {
        OutcomeStep::Decided(p) => p,
        OutcomeStep::CheckCachedSnapshot => second_step_spec(
            status,
            is_official_target,
            more,
            snapshot_says_failover,
        ),
    }
}

/// The gateway never fails over when no other account is left to try.
pub proof fn lemma_no_failover_without_candidates(
    status: u16,
    is_official_target: bool,
    is_challenge: bool,
    snapshot_says_failover: bool,
)
    ensures
        outcome_spec(
            status,
            is_official_target,
            is_challenge,
            false,
            snapshot_says_failover,
        ).decision is RespondUpstream,
{
}

/// A success is always passed through, and it clears the account's cooldown.
pub proof fn lemma_success_responds_and_clears_cooldown(
    status: u16,
    is_official_target: bool,
    is_challenge: bool,
    more: bool,
    snapshot_says_failover: bool,
)
    requires
        is_success(status),
    ensures
        outcome_spec(status, is_official_target, is_challenge, more, snapshot_says_failover)
            == plan(
            UpstreamOutcomeDecision::RespondUpstream,
            true,
            CooldownAction::Keep,
            false,
            OutcomeLog::Success,
        ),
{
}

/// A 401 from the official upstream (that is no challenge page) is passed
/// through without cooldown, whatever the cached usage says.
pub proof fn lemma_official_unauthorized_responds_upstream(
    is_challenge: bool,
    more: bool,
    snapshot_says_failover: bool,
)
    requires
        !is_challenge,
    ensures
        outcome_spec(401, true, is_challenge, more, snapshot_says_failover).decision is RespondUpstream,
        outcome_spec(401, true, is_challenge, more, snapshot_says_failover).cooldown is Keep,
{
}

/// A server error from the official upstream fails over only where the
/// cached usage snapshot says the account is exhausted.
pub proof fn lemma_official_server_error_fails_over_only_when_exhausted(
    status: u16,
    more: bool,
    snapshot_says_failover: bool,
)
    requires
        is_server_error(status),
    ensures
        outcome_spec(status, true, false, more, snapshot_says_failover).decision is Failover
            <==> (more && snapshot_says_failover),
{
}

/// Whether a status is one after which a request sent through the fallback
/// path moves on to another account: an authorization failure (401, 403), a
/// missing route (404) or a rate limit (429). Server errors are not.
pub open spec fn is_fallback_failover_status(status: u16) -> bool {
    status == 401 || status == 403 || status == 404 || status == 429
}

/// Whether a non-success answer on the fallback path fails over: only for
/// an authorization, not-found or rate-limit status, and only where another
/// account is left to try.
pub fn should_failover_after_fallback_non_success(status: u16, has_more_candidates: bool) -> (r:
    bool)
    ensures
        r == (has_more_candidates && is_fallback_failover_status(status)),
{
    has_more_candidates && (status == 401 || status == 403 || status == 404 || status == 429)
}

/// The fallback path never fails over on a server error, nor when no other
/// account is left.
pub proof fn lemma_fallback_never_fails_over_on_server_error(status: u16, more: bool)
    ensures
        is_server_error(status) ==> !(more && is_fallback_failover_status(status)),
        !(false && is_fallback_failover_status(status)),
{
}


/// A server error (5xx) from a custom upstream that is no challenge page is
/// answered by trying another account whenever one is left, and passed back
/// to the client only when none is; either way the account is put into the
/// cooldown for its status and "upstream server error" is logged, whatever
/// the cached usage says.
pub proof fn lemma_custom_server_error_fails_over_when_possible(
    status: u16,
    more: bool,
    snapshot_says_failover: bool,
)
    requires
        500 <= status <= 599,
    ensures
        ({
            let p = outcome_spec(status, false, false, more, snapshot_says_failover);
            &&& (p.decision == UpstreamOutcomeDecision::Failover) == more
            &&& (p.decision == UpstreamOutcomeDecision::RespondUpstream) == !more
            &&& p.cooldown == CooldownAction::ForStatus
            &&& !p.clear_cooldown
            &&& !p.enqueue_usage_refresh
            &&& outcome_message_spec(p.log) == Some("upstream server error"@)
        }),
{
}


/// A challenge page (that is no success) puts the account into the challenge
/// cooldown, is logged as "upstream challenge blocked", and fails over
/// exactly when another account is left, whatever the target.
pub proof fn lemma_challenge_fails_over_when_possible(
    status: u16,
    official: bool,
    more: bool,
    snapshot_says_failover: bool,
)
    requires
        !(200 <= status <= 299),
    ensures
        ({
            let p = outcome_spec(status, official, true, more, snapshot_says_failover);
            &&& (p.decision == UpstreamOutcomeDecision::Failover) == more
            &&& p.cooldown == CooldownAction::Challenge
            &&& !p.clear_cooldown
            &&& !p.enqueue_usage_refresh
            &&& outcome_message_spec(p.log) == Some("upstream challenge blocked"@)
        }),
{
}

/// A 429 that is no challenge page puts the account into the cooldown for
/// the status, is logged as "upstream rate-limited", and fails over exactly
/// when another account is left; only the official upstream also queues a
/// usage refresh.
pub proof fn lemma_rate_limit_fails_over_when_possible(
    official: bool,
    more: bool,
    snapshot_says_failover: bool,
)
    ensures
        ({
            let p = outcome_spec(429, official, false, more, snapshot_says_failover);
            &&& (p.decision == UpstreamOutcomeDecision::Failover) == more
            &&& p.cooldown == CooldownAction::ForStatus
            &&& !p.clear_cooldown
            &&& p.enqueue_usage_refresh == official
            &&& outcome_message_spec(p.log) == Some("upstream rate-limited"@)
        }),
{
}

/// A 404 from a custom upstream fails over (with the cooldown for the
/// status and "upstream not-found failover" logged) whenever another account
/// is left; from the official upstream a 404 never fails over unless the
/// cached usage says the account is exhausted.
pub proof fn lemma_not_found_fails_over_only_on_custom_upstreams(
    official: bool,
    more: bool,
    snapshot_says_failover: bool,
)
    ensures
        !official && more ==> {
            let p = outcome_spec(404, false, false, true, snapshot_says_failover);
            &&& p.decision == UpstreamOutcomeDecision::Failover
            &&& p.cooldown == CooldownAction::ForStatus
            &&& outcome_message_spec(p.log) == Some("upstream not-found failover"@)
        },
        official && !snapshot_says_failover ==> outcome_spec(
            404,
            true,
            false,
            more,
            false,
        ).decision == UpstreamOutcomeDecision::RespondUpstream,
{
}

/// Any other non-success from the official upstream queues a usage refresh
/// and fails over (with the default cooldown and "upstream account
/// exhausted" logged) exactly when the cached usage says the account is
/// exhausted and another account is left; otherwise it is passed back and
/// logged as "upstream non-success".
pub proof fn lemma_official_other_failure_follows_cached_usage(
    status: u16,
    more: bool,
    exhausted: bool,
)
    requires
        !(200 <= status <= 299),
        status != 429,
        status != 401,
    ensures
        ({
            let p = outcome_spec(status, true, false, more, exhausted);
            &&& p.enqueue_usage_refresh
            &&& (p.decision == UpstreamOutcomeDecision::Failover) == (exhausted && more)
            &&& exhausted ==> p.cooldown == CooldownAction::Default && outcome_message_spec(p.log)
                == Some("upstream account exhausted"@)
            &&& !exhausted ==> p.cooldown == CooldownAction::Keep && outcome_message_spec(p.log)
                == Some("upstream non-success"@)
        }),
{
}

} // verus!
