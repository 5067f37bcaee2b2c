//! Account maintenance rules: which fields an update changes and what it logs,
//! and which accounts the bulk cleanup of unavailable free accounts removes.
use crate::text::{
    comma_pieces, decimal, decimal_text, eq_ignore_case, join, join_pieces, opt_str_view,
    opt_string_view, opt_trimmed, split_commas, str_eq, str_eq_ignore_case, trim, trim_pieces,
    trim_slice, trimmed_non_empty, trimmed_pieces, comma_free, lemma_comma_pieces_comma_free,
    lemma_comma_pieces_of_join, lemma_trimmed_pieces_shape, lemma_trimmed_pieces_fixed,
};
use vstd::prelude::*;
use vstd::string::*;

verus! {

broadcast use vstd::string::group_string_axioms;

/// The account status that an update asks for, once recognized: `active`, or
/// `disabled` for `disabled` and `inactive`, in any ASCII case and with
/// surrounding whitespace; none where the text is not one of these.
pub open spec fn account_status_spec(status: Seq<char>) -> Option<Seq<char>> {
    let t = trim(status);
    if eq_ignore_case(t, "active"@) {
        Some("active"@)
    } else if eq_ignore_case(t, "disabled"@) || eq_ignore_case(t, "inactive"@) {
        Some("disabled"@)
    } else {
        None
    }
}

/// Recognizes the status that an update asks for.
pub fn normalize_account_status(status: &str) -> (r: Result<&'static str, String>)
    ensures
        match r {
            Ok(s) => account_status_spec(status@) == Some(s@),
            Err(e) => account_status_spec(status@) is None && e@ == "unsupported account status: "@
                + status@,
        },
{
    let normalized = trim_slice(status);
    if str_eq_ignore_case(normalized, "active") {
        Ok("active")
    } else if str_eq_ignore_case(normalized, "disabled") || str_eq_ignore_case(
        normalized,
        "inactive",
    ) {
        Ok("disabled")
    } else {
        let mut message = "unsupported account status: ".to_string();
        message.append(status);
        Err(message)
    }
}

/// The label that an update sets: none where none is given, the trimmed text
/// otherwise; an error where the given text is blank.
pub fn normalize_optional_label<'a>(label: Option<&'a str>) -> (r: Result<Option<&'a str>, String>)
    ensures
        match label {
            None => r == Ok::<Option<&str>, String>(None),
            Some(l) => if trim(l@).len() == 0 {
                r matches Err(e) && e@ == "label cannot be empty"@
            } else {
                r matches Ok(Some(t)) && t@ == trim(l@)
            },
        },
{
    let Some(label) = label else {
        return Ok(None);
    };
    let trimmed = trim_slice(label);
    if trimmed.is_empty() {
        return Err("label cannot be empty".to_string());
    }
    Ok(Some(trimmed))
}

/// A free text field of an update: trimmed, none where absent or blank.
pub fn normalize_optional_text(value: Option<&str>) -> (r: Option<String>)
    ensures
        opt_string_view(r) == opt_trimmed(opt_str_view(value)),
{
    trimmed_non_empty(value)
}

/// The tags that a comma-separated tag text stands for: each piece trimmed,
/// blank pieces dropped, joined by commas.
pub open spec fn tags_spec(value: Seq<char>) -> Option<Seq<char>> {
    let parts = trimmed_pieces(comma_pieces(value));
    if parts.len() == 0 {
        None
    } else {
        Some(join(parts, ","@))
    }
}

/// The tags of an update, in the form the store keeps: none where no tag
/// text is given or it holds no tag.
pub fn normalize_optional_tags(value: Option<&str>) -> (r: Option<String>)
    ensures
        opt_string_view(r) == match value {
            None => None,
            Some(v) => tags_spec(v@),
        },
{
    let Some(value) = value else {
        return None;
    };
    let pieces = split_commas(value);
    let parts = trim_pieces(&pieces);
    if parts.len() == 0 {
        None
    } else {
        Some(join_pieces(&parts, ","))
    }
}

/// Normalising tags twice gives what normalising them once gave: the stored
/// form of a tag text is its own stored form.
pub proof fn lemma_tags_normalization_idempotent(value: Seq<char>)
    ensures
        tags_spec(value) matches Some(t) ==> tags_spec(t) == Some(t),
{
    let pieces = comma_pieces(value);
    let parts = trimmed_pieces(pieces);
    if parts.len() > 0 {
        lemma_comma_pieces_comma_free(value);
        lemma_trimmed_pieces_shape(pieces);
        let t = join(parts, ","@);
        lemma_comma_pieces_of_join(parts);
        lemma_trimmed_pieces_fixed(parts);
        assert(trimmed_pieces(comma_pieces(t)) == parts);
    }
}

/// One event that an account update writes.
pub struct AccountEventPlan {
    pub event_type: String,
    pub message: String,
}

/// What an account update writes to the store, with the events it logs.
pub struct AccountUpdatePlan {
    /// The trimmed account id.
    pub account_id: String,
    /// The new sort position, where one is asked for.
    pub sort: Option<i64>,
    /// The sort event, where a sort position is asked for.
    pub sort_event: Option<AccountEventPlan>,
    /// The new status and the reason recorded with it.
    pub status: Option<(&'static str, &'static str)>,
    /// The new label and its event.
    pub label: Option<(String, AccountEventPlan)>,
    /// Whether note or tags are to be written (both, even where one is absent).
    pub metadata_requested: bool,
    /// The normalized note.
    pub note: Option<String>,
    /// The normalized tags.
    pub tags: Option<String>,
    /// The metadata event, where metadata is written.
    pub metadata_event: Option<AccountEventPlan>,
}

/// The reason recorded with a status change.
pub open spec fn status_reason_spec(status: Seq<char>) -> Seq<char> {
    if status == "disabled"@ {
        "manual_disable"@
    } else {
        "manual_enable"@
    }
}

/// The message of the metadata event: `note=<note> tags=<tags>`, with `-`
/// for a field that is absent.
pub open spec fn metadata_message_spec(note: Option<Seq<char>>, tags: Option<Seq<char>>) -> Seq<
    char,
> {
    "note="@ + (match note {
        Some(n) => n,
        None => "-"@,
    }) + " tags="@ + (match tags {
        Some(t) => t,
        None => "-"@,
    })
}

/// Why an update is refused, in the order the checks are made; none where it
/// is accepted.
pub open spec fn account_update_error_spec(
    account_id: Seq<char>,
    sort: Option<i64>,
    status: Option<Seq<char>>,
    label: Option<Seq<char>>,
    note: Option<Seq<char>>,
    tags: Option<Seq<char>>,
) -> Option<Seq<char>> {
    if trim(account_id).len() == 0 {
        Some("missing accountId"@)
    } else if status is Some && account_status_spec(status->0) is None {
        Some("unsupported account status: "@ + status->0)
    } else if label is Some && trim(label->0).len() == 0 {
        Some("label cannot be empty"@)
    } else if sort is None && status is None && label is None && note is None && tags is None {
        Some("missing account update fields"@)
    } else {
        None
    }
}

fn as_opt_str(o: &Option<String>) -> (r: Option<&str>)
    ensures
        opt_str_view(r) == opt_string_view(*o),
{
    match o {
        Some(s) => Some(s.as_str()),
        None => None,
    }
}

fn text_or_dash(o: &Option<String>) -> (r: &str)
    ensures
        r@ == match o {
            Some(s) => s@,
            None => "-"@,
        },
{
    match o {
        Some(s) => s.as_str(),
        None => "-",
    }
}

/// Checks an account update and says what it writes: the trimmed id, the
/// sort position, the recognized status with its reason, the trimmed label,
/// the normalized note and tags, and the event of each change.
pub fn plan_account_update(
    account_id: &str,
    sort: Option<i64>,
    status: Option<&str>,
    label: Option<&str>,
    note: Option<&str>,
    tags: Option<&str>,
) -> (r: Result<AccountUpdatePlan, String>)
    ensures
        match account_update_error_spec(
            account_id@,
            sort,
            opt_str_view(status),
            opt_str_view(label),
            opt_str_view(note),
            opt_str_view(tags),
        ) {
            Some(e) => r matches Err(m) && m@ == e,
            None => r matches Ok(p) && {
                &&& p.account_id@ == trim(account_id@)
                &&& p.sort == sort
                &&& match sort {
                    Some(v) => p.sort_event matches Some(ev) && ev.event_type@
                        == "account_sort_update"@ && ev.message@ == "sort="@ + decimal(v as int),
                    None => p.sort_event is None,
                }
                &&& match status {
                    Some(s) => p.status matches Some(st) && Some(st.0@) == account_status_spec(
                        s@,
                    ) && st.1@ == status_reason_spec(st.0@),
                    None => p.status is None,
                }
                &&& match label {
                    Some(l) => p.label matches Some(lb) && lb.0@ == trim(l@)
                        && lb.1.event_type@ == "account_profile_update"@ && lb.1.message@
                        == "label="@ + trim(l@),
                    None => p.label is None,
                }
                &&& p.metadata_requested == (note is Some || tags is Some)
                &&& opt_string_view(p.note) == opt_trimmed(opt_str_view(note))
                &&& opt_string_view(p.tags) == match tags {
                    None => None,
                    Some(t) => tags_spec(t@),
                }
                &&& if p.metadata_requested {
                    p.metadata_event matches Some(ev) && ev.event_type@
                        == "account_profile_update"@ && ev.message@ == metadata_message_spec(
                        opt_string_view(p.note),
                        opt_string_view(p.tags),
                    )
                } else {
                    p.metadata_event is None
                }
            },
        },
{
    let normalized_account_id = trim_slice(account_id);
    if normalized_account_id.is_empty() {
        return Err("missing accountId".to_string());
    }
    let normalized_status = match status {
        Some(s) => match normalize_account_status(s) {
            Ok(v) => Some(v),
            Err(e) => {
                return Err(e);
            },
        },
        None => None,
    };
    let normalized_label = match normalize_optional_label(label) {
        Ok(v) => v,
        Err(e) => {
            return Err(e);
        },
    };
    let normalized_note = normalize_optional_text(note);
    let normalized_tags = normalize_optional_tags(tags);
    let metadata_requested = note.is_some() || tags.is_some();
    if sort.is_none() && normalized_status.is_none() && normalized_label.is_none()
        && !metadata_requested {
        return Err("missing account update fields".to_string());
    }
    let sort_event = match sort {
        Some(v) => {
            let mut message = "sort=".to_string();
            message.append(decimal_text(v).as_str());
            Some(AccountEventPlan { event_type: "account_sort_update".to_string(), message })
        },
        None => None,
    };
    let status_plan = match normalized_status {
        Some(st) => {
            let disabled = str_eq(st, "disabled");
            let reason = if disabled {
                "manual_disable"
            } else {
                "manual_enable"
            };
            Some((st, reason))
        },
        None => None,
    };
    let label_plan = match normalized_label {
        Some(l) => {
            let mut message = "label=".to_string();
            message.append(l);
            Some(
                (
                    l.to_string(),
                    AccountEventPlan { event_type: "account_profile_update".to_string(), message },
                ),
            )
        },
        None => None,
    };
    let metadata_event = if metadata_requested {
        let mut message = "note=".to_string();
        message.append(text_or_dash(&normalized_note));
        message.append(" tags=");
        message.append(text_or_dash(&normalized_tags));
        Some(AccountEventPlan { event_type: "account_profile_update".to_string(), message })
    } else {
        None
    };
    Ok(
        AccountUpdatePlan {
            account_id: normalized_account_id.to_string(),
            sort,
            sort_event,
            status: status_plan,
            label: label_plan,
            metadata_requested,
            note: normalized_note,
            tags: normalized_tags,
            metadata_event,
        },
    )
}

/// The plan of an account as the plan resolver names it: a normalized name
/// (`free`, `plus`, ..., or `unknown`) and the raw name it came from.
pub struct ResolvedAccountPlan {
    pub normalized: String,
    pub raw: Option<String>,
}

/// The plan name written into the cleanup event: the raw name where the
/// normalized one is `unknown`, the normalized one otherwise.
pub open spec fn plan_label_spec(plan: Option<ResolvedAccountPlan>) -> Option<Seq<char>> {
    match plan {
        None => None,
        Some(p) => if p.normalized@ == "unknown"@ {
            opt_string_view(p.raw)
        } else {
            Some(p.normalized@)
        },
    }
}

/// The plan name written into the cleanup event.
pub fn plan_label_for_event(plan: Option<&ResolvedAccountPlan>) -> (r: Option<&str>)
    ensures
        opt_str_view(r) == plan_label_spec(
            match plan {
                Some(p) => Some(*p),
                None => None,
            },
        ),
{
    match plan {
        None => None,
        Some(value) => {
            if str_eq(value.normalized.as_str(), "unknown") {
                as_opt_str(&value.raw)
            } else {
                Some(value.normalized.as_str())
            }
        },
    }
}

/// The message of the event written for a deleted account.
pub fn bulk_delete_event_message(plan: Option<&str>) -> (r: String)
    ensures
        r@ == match plan {
            Some(p) => "bulk delete unavailable free account: plan="@ + p@,
            None => "bulk delete unavailable free account"@,
        },
{
    match plan {
        Some(p) => {
            let mut message = "bulk delete unavailable free account: plan=".to_string();
            message.append(p);
            message
        },
        None => "bulk delete unavailable free account".to_string(),
    }
}

/// What the cleanup does with one account.
#[derive(Clone, Copy, Debug, PartialEq, Eq, Structural)]
pub enum CleanupOutcome {
    /// The account is disabled.
    SkippedDisabled,
    /// No usage snapshot (and, where it matters, no token) is known.
    SkippedMissingUsage,
    /// The usage snapshot says the account is still available.
    SkippedAvailable,
    /// The account has no token.
    SkippedMissingToken,
    /// The account is not on the free plan, or its plan is unknown.
    SkippedNonFree,
    /// The account is deleted.
    Deleted,
}

/// The status of an account, trimmed and in ASCII lower case, is this one.
pub open spec fn status_is(status: Seq<char>, name: Seq<char>) -> bool {
    eq_ignore_case(trim(status), name)
}

/// The decision made before the token of an account is read: a skip, or none
/// where the token has to be looked at. `snapshot` is whether a usage
/// snapshot is known and, where it is, whether it says the account is available.
pub open spec fn cleanup_precheck_spec(status: Seq<char>, snapshot: Option<bool>) -> Option<
    CleanupOutcome,
> {
    if status_is(status, "disabled"@) {
        Some(CleanupOutcome::SkippedDisabled)
    } else if !status_is(status, "unavailable"@) && !status_is(status, "banned"@) {
        match snapshot {
            None => Some(CleanupOutcome::SkippedMissingUsage),
            Some(available) => if available {
                Some(CleanupOutcome::SkippedAvailable)
            } else {
                None
            },
        }
    } else {
        None
    }
}

/// The decision made before the token of an account is read.
pub fn cleanup_precheck(status: &str, snapshot: Option<bool>) -> (r: Option<CleanupOutcome>)
    ensures
        r == cleanup_precheck_spec(status@, snapshot),
{
    let normalized = trim_slice(status);
    if str_eq_ignore_case(normalized, "disabled") {
        return Some(CleanupOutcome::SkippedDisabled);
    }
    if !str_eq_ignore_case(normalized, "unavailable") && !str_eq_ignore_case(
        normalized,
        "banned",
    ) {
        match snapshot {
            None => {
                return Some(CleanupOutcome::SkippedMissingUsage);
            },
            Some(available) => {
                if available {
                    return Some(CleanupOutcome::SkippedAvailable);
                }
            },
        }
    }
    None
}

/// The decision made once the token has been read and the plan resolved.
pub open spec fn cleanup_decide_spec(
    has_snapshot: bool,
    has_token: bool,
    plan: Option<Seq<char>>,
) -> CleanupOutcome {
    match plan {
        None => if !has_snapshot && !has_token {
            CleanupOutcome::SkippedMissingUsage
        } else if !has_token {
            CleanupOutcome::SkippedMissingToken
        } else {
            CleanupOutcome::SkippedNonFree
        },
        Some(p) => if p != "free"@ {
            CleanupOutcome::SkippedNonFree
        } else if !has_token {
            CleanupOutcome::SkippedMissingToken
        } else {
            CleanupOutcome::Deleted
        },
    }
}

/// The decision made once the token has been read and the plan resolved;
/// `plan` is the normalized plan name, where one was resolved.
pub fn cleanup_decide(has_snapshot: bool, has_token: bool, plan: Option<&str>) -> (r:
    CleanupOutcome)
    ensures
        r == cleanup_decide_spec(has_snapshot, has_token, opt_str_view(plan)),
{
    match plan {
        None => {
            if !has_snapshot && !has_token {
                CleanupOutcome::SkippedMissingUsage
            } else if !has_token {
                CleanupOutcome::SkippedMissingToken
            } else {
                CleanupOutcome::SkippedNonFree
            }
        },
        Some(p) => {
            if !str_eq(p, "free") {
                CleanupOutcome::SkippedNonFree
            } else if !has_token {
                CleanupOutcome::SkippedMissingToken
            } else {
                CleanupOutcome::Deleted
            }
        },
    }
}

/// The tally of one cleanup run.
pub struct DeleteUnavailableFreeResult {
    pub scanned: usize,
    pub deleted: usize,
    pub skipped_available: usize,
    pub skipped_disabled: usize,
    pub skipped_non_free: usize,
    pub skipped_missing_usage: usize,
    pub skipped_missing_token: usize,
    pub deleted_account_ids: Vec<String>,
}

impl DeleteUnavailableFreeResult {
    /// Every scanned account is counted once, under what became of it, and
    /// every deleted account is listed.
    pub open spec fn is_consistent(&self) -> bool {
        &&& self.scanned == self.deleted + self.skipped_available + self.skipped_disabled
            + self.skipped_non_free + self.skipped_missing_usage + self.skipped_missing_token
        &&& self.deleted == self.deleted_account_ids@.len()
    }

    /// The tally before any account is scanned.
    pub fn new() -> (r: Self)
        ensures
            r.is_consistent(),
            r.scanned == 0,
            r.deleted_account_ids@.len() == 0,
            tally_is_empty(r),
    {
        DeleteUnavailableFreeResult {
            scanned: 0,
            deleted: 0,
            skipped_available: 0,
            skipped_disabled: 0,
            skipped_non_free: 0,
            skipped_missing_usage: 0,
            skipped_missing_token: 0,
            deleted_account_ids: Vec::new(),
        }
    }

    /// Counts one scanned account under its outcome; a deleted account's id
    /// is listed.
    pub fn record(&mut self, outcome: CleanupOutcome, account_id: String)
        requires
            old(self).is_consistent(),
            old(self).scanned < usize::MAX,
        ensures
            final(self).is_consistent(),
            record_step(*old(self), outcome, account_id, *final(self)),
    {
        self.scanned = self.scanned + 1;
        match outcome {
            CleanupOutcome::SkippedDisabled => {
                self.skipped_disabled = self.skipped_disabled + 1;
            },
            CleanupOutcome::SkippedMissingUsage => {
                self.skipped_missing_usage = self.skipped_missing_usage + 1;
            },
            CleanupOutcome::SkippedAvailable => {
                self.skipped_available = self.skipped_available + 1;
            },
            CleanupOutcome::SkippedMissingToken => {
                self.skipped_missing_token = self.skipped_missing_token + 1;
            },
            CleanupOutcome::SkippedNonFree => {
                self.skipped_non_free = self.skipped_non_free + 1;
            },
            CleanupOutcome::Deleted => {
                self.deleted = self.deleted + 1;
                self.deleted_account_ids.push(account_id);
            },
        }
    }
}

/// Only an account whose resolved plan is `free` and that has a token is
/// ever deleted; a disabled account never is; and an account whose usage is
/// unknown or still available is deleted only where it is marked unavailable
/// or banned.
pub proof fn lemma_cleanup_deletes_only_free_accounts_with_token(
    status: Seq<char>,
    snapshot: Option<bool>,
    has_token: bool,
    plan: Option<Seq<char>>,
)
    requires
        cleanup_precheck_spec(status, snapshot) is None,
        cleanup_decide_spec(snapshot is Some, has_token, plan) is Deleted,
    ensures
        plan == Some("free"@),
        has_token,
        !status_is(status, "disabled"@),
        snapshot != Some(false) ==> status_is(status, "unavailable"@) || status_is(
            status,
            "banned"@,
        ),
{
}


/// What recording one outcome does to a tally: the account is counted as
/// scanned and under its outcome, and a deleted account's id is listed last.
pub open spec fn record_step(
    t: DeleteUnavailableFreeResult,
    outcome: CleanupOutcome,
    account_id: String,
    u: DeleteUnavailableFreeResult,
) -> bool {
    &&& u.scanned == t.scanned + 1
    &&& u.deleted == t.deleted + (if outcome is Deleted {
        1int
    } else {
        0int
    })
    &&& u.skipped_available == t.skipped_available + (if outcome is SkippedAvailable {
        1int
    } else {
        0int
    })
    &&& u.skipped_disabled == t.skipped_disabled + (if outcome is SkippedDisabled {
        1int
    } else {
        0int
    })
    &&& u.skipped_non_free == t.skipped_non_free + (if outcome is SkippedNonFree {
        1int
    } else {
        0int
    })
    &&& u.skipped_missing_usage == t.skipped_missing_usage + (if outcome is SkippedMissingUsage {
        1int
    } else {
        0int
    })
    &&& u.skipped_missing_token == t.skipped_missing_token + (if outcome is SkippedMissingToken {
        1int
    } else {
        0int
    })
    &&& u.deleted_account_ids@ == if outcome is Deleted {
        t.deleted_account_ids@.push(account_id)
    } else {
        t.deleted_account_ids@
    }
}

/// How many of the recorded outcomes are this one.
pub open spec fn outcome_count(records: Seq<(CleanupOutcome, String)>, outcome: CleanupOutcome) -> nat
    decreases records.len(),
{
    if records.len() == 0 {
        0
    } else {
        outcome_count(records.drop_last(), outcome) + (if records.last().0 == outcome {
            1nat
        } else {
            0nat
        })
    }
}

/// The ids of the deleted accounts among the recorded outcomes, in order.
pub open spec fn deleted_ids(records: Seq<(CleanupOutcome, String)>) -> Seq<String>
    decreases records.len(),
{
    if records.len() == 0 {
        Seq::empty()
    } else if records.last().0 is Deleted {
        deleted_ids(records.drop_last()).push(records.last().1)
    } else {
        deleted_ids(records.drop_last())
    }
}

/// A tally with nothing counted.
pub open spec fn tally_is_empty(t: DeleteUnavailableFreeResult) -> bool {
    &&& t.scanned == 0
    &&& t.deleted == 0
    &&& t.skipped_available == 0
    &&& t.skipped_disabled == 0
    &&& t.skipped_non_free == 0
    &&& t.skipped_missing_usage == 0
    &&& t.skipped_missing_token == 0
    &&& t.deleted_account_ids@.len() == 0
}

/// Over a whole cleanup run, recording each account's outcome in turn from
/// an empty tally: every account is scanned once, each counter counts its
/// outcome, the scanned count is the sum of the counters, and the deleted ids
/// are those of the deleted accounts, in the order they were scanned.
pub proof fn lemma_cleanup_tally_run(
    tallies: Seq<DeleteUnavailableFreeResult>,
    records: Seq<(CleanupOutcome, String)>,
)
    requires
        tallies.len() == records.len() + 1,
        tally_is_empty(tallies[0]),
        forall|i: int|
            0 <= i < records.len() ==> record_step(
                #[trigger] tallies[i],
                records[i].0,
                records[i].1,
                tallies[i + 1],
            ),
    ensures
        tallies.last().is_consistent(),
        tallies.last().scanned == records.len(),
        tallies.last().deleted == outcome_count(records, CleanupOutcome::Deleted),
        tallies.last().skipped_available == outcome_count(records, CleanupOutcome::SkippedAvailable),
        tallies.last().skipped_disabled == outcome_count(records, CleanupOutcome::SkippedDisabled),
        tallies.last().skipped_non_free == outcome_count(records, CleanupOutcome::SkippedNonFree),
        tallies.last().skipped_missing_usage == outcome_count(
            records,
            CleanupOutcome::SkippedMissingUsage,
        ),
        tallies.last().skipped_missing_token == outcome_count(
            records,
            CleanupOutcome::SkippedMissingToken,
        ),
        tallies.last().deleted_account_ids@ == deleted_ids(records),
    decreases records.len(),
{
    if records.len() == 0 {
        assert(tallies[0].deleted_account_ids@ =~= Seq::<String>::empty());
    } else {
        let n = records.len() - 1;
        let t2 = tallies.drop_last();
        let r2 = records.drop_last();
        assert forall|i: int| 0 <= i < r2.len() implies record_step(
            #[trigger] t2[i],
            r2[i].0,
            r2[i].1,
            t2[i + 1],
        ) by {
            assert(t2[i] == tallies[i]);
            assert(t2[i + 1] == tallies[i + 1]);
            assert(r2[i] == records[i]);
        }
        lemma_cleanup_tally_run(t2, r2);
        assert(t2.last() == tallies[n]);
        assert(record_step(tallies[n], records[n].0, records[n].1, tallies[n + 1]));
    }
}


/// Once the precheck lets an account through, the cleanup deletes it exactly
/// when its resolved plan is `free` and it has a token, whether or not a
/// usage snapshot is known.
pub proof fn lemma_cleanup_deletes_exactly_free_accounts_with_token(
    has_snapshot: bool,
    has_token: bool,
    plan: Option<Seq<char>>,
)
    ensures
        (cleanup_decide_spec(has_snapshot, has_token, plan) == CleanupOutcome::Deleted) == (
        plan == Some("free"@) && has_token),
        cleanup_decide_spec(has_snapshot, true, Some("free"@)) == CleanupOutcome::Deleted,
{
}


/// Before the token is read: a disabled account is skipped; an account that
/// is neither unavailable nor banned is skipped as missing usage where no
/// snapshot is known and as available where its snapshot says so; every
/// other account goes on to the token check.
pub proof fn lemma_cleanup_precheck_outcomes(status: Seq<char>, snapshot: Option<bool>)
    ensures
        status_is(status, "disabled"@) ==> cleanup_precheck_spec(status, snapshot) == Some(
            CleanupOutcome::SkippedDisabled,
        ),
        !status_is(status, "disabled"@) && (status_is(status, "unavailable"@) || status_is(
            status,
            "banned"@,
        )) ==> cleanup_precheck_spec(status, snapshot) is None,
        !status_is(status, "disabled"@) && !status_is(status, "unavailable"@) && !status_is(
            status,
            "banned"@,
        ) ==> cleanup_precheck_spec(status, snapshot) == match snapshot {
            None => Some(CleanupOutcome::SkippedMissingUsage),
            Some(true) => Some(CleanupOutcome::SkippedAvailable),
            Some(false) => None::<CleanupOutcome>,
        },
{
}

/// After the token is read, an account that is not deleted is skipped as:
/// missing usage where neither a snapshot nor a token is known and no plan
/// resolves; missing token where a free plan (or no plan) has no token; and
/// not free otherwise.
pub proof fn lemma_cleanup_skip_reasons(has_snapshot: bool, has_token: bool, plan: Option<Seq<char>>)
    ensures
        plan is None && !has_snapshot && !has_token ==> cleanup_decide_spec(
            has_snapshot,
            has_token,
            plan,
        ) == CleanupOutcome::SkippedMissingUsage,
        plan is None && has_snapshot && !has_token ==> cleanup_decide_spec(
            has_snapshot,
            has_token,
            plan,
        ) == CleanupOutcome::SkippedMissingToken,
        plan is None && has_token ==> cleanup_decide_spec(has_snapshot, has_token, plan)
            == CleanupOutcome::SkippedNonFree,
        plan == Some("free"@) && !has_token ==> cleanup_decide_spec(has_snapshot, has_token, plan)
            == CleanupOutcome::SkippedMissingToken,
        plan is Some && plan != Some("free"@) ==> cleanup_decide_spec(has_snapshot, has_token, plan)
            == CleanupOutcome::SkippedNonFree,
{
}

} // verus!
