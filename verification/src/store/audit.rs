//! What the audit log may record of each operation.
use crate::domain::{
    new_issue_changed_fields, patch_changed_fields, resolution_changed_fields, str_views,
    transition_kind_changed_fields, transition_kind_operation, IssuePatch, IssueState, NewIssue,
    TransitionKind, Issue,
};
use crate::error::{fails_with_internal, AppError};
use crate::json::{find_member, json_document, member_of, opt_int, parse_json, read_int, Json};
use crate::text::{concat3, str_equals};
use vstd::prelude::*;
use vstd::utf8::encode_utf8;

verus! {

/// The operations whose audit entries name a project.
pub open spec fn spec_operation_allows_project(op: Seq<char>) -> bool {
    op == "project_create"@
        || op == "issue_create"@
        || op == "issue_show"@
        || op == "issue_list"@
        || op == "issue_batch"@
        || op == "issue_edit"@
        || op == "issue_comment"@
        || op == "issue_history"@
        || op == "issue_dependency_add"@
        || op == "issue_dependency_remove"@
        || op == "issue_dependency_list"@
        || op == "issue_parent_set"@
        || op == "issue_parent_list"@
        || op == "issue_claim"@
        || op == "issue_heartbeat"@
        || op == "issue_takeover"@
        || op == "decision_request"@
        || op == "decision_list"@
        || op == "decision_resolve"@
        || op == "issue_start"@
        || op == "issue_block"@
        || op == "issue_resume"@
        || op == "issue_complete"@
        || op == "issue_cancel"@
        || op == "issue_reopen"@
}

pub fn operation_allows_project(operation: &str) -> (b: bool)
    ensures
        b == spec_operation_allows_project(operation@),
{
    str_equals(operation, "project_create")
        || str_equals(operation, "issue_create")
        || str_equals(operation, "issue_show")
        || str_equals(operation, "issue_list")
        || str_equals(operation, "issue_batch")
        || str_equals(operation, "issue_edit")
        || str_equals(operation, "issue_comment")
        || str_equals(operation, "issue_history")
        || str_equals(operation, "issue_dependency_add")
        || str_equals(operation, "issue_dependency_remove")
        || str_equals(operation, "issue_dependency_list")
        || str_equals(operation, "issue_parent_set")
        || str_equals(operation, "issue_parent_list")
        || str_equals(operation, "issue_claim")
        || str_equals(operation, "issue_heartbeat")
        || str_equals(operation, "issue_takeover")
        || str_equals(operation, "decision_request")
        || str_equals(operation, "decision_list")
        || str_equals(operation, "decision_resolve")
        || str_equals(operation, "issue_start")
        || str_equals(operation, "issue_block")
        || str_equals(operation, "issue_resume")
        || str_equals(operation, "issue_complete")
        || str_equals(operation, "issue_cancel")
        || str_equals(operation, "issue_reopen")
}

/// The kind of target that an operation's audit entries may name.
pub open spec fn spec_allowed_target_kind(op: Seq<char>) -> Option<Seq<char>> {
    if op == "project_create"@ {
        Some("project"@)
    } else if op == "issue_create"@
        || op == "issue_show"@
        || op == "issue_edit"@
        || op == "issue_comment"@
        || op == "issue_history"@
        || op == "issue_dependency_add"@
        || op == "issue_dependency_remove"@
        || op == "issue_dependency_list"@
        || op == "issue_parent_set"@
        || op == "issue_parent_list"@
        || op == "issue_claim"@
        || op == "issue_heartbeat"@
        || op == "issue_takeover"@
        || op == "decision_request"@
        || op == "decision_list"@
        || op == "decision_resolve"@
        || op == "issue_start"@
        || op == "issue_block"@
        || op == "issue_resume"@
        || op == "issue_complete"@
        || op == "issue_cancel"@
        || op == "issue_reopen"@ {
        Some("issue"@)
    } else {
        None
    }
}

pub fn allowed_target_kind(operation: &str) -> (k: Option<&'static str>)
    ensures
        match k {
            Some(s) => spec_allowed_target_kind(operation@) == Some(s@),
            None => spec_allowed_target_kind(operation@) is None,
        },
{
    if str_equals(operation, "project_create") {
        Some("project")
    } else if str_equals(operation, "issue_create")
        || str_equals(operation, "issue_show")
        || str_equals(operation, "issue_edit")
        || str_equals(operation, "issue_comment")
        || str_equals(operation, "issue_history")
        || str_equals(operation, "issue_dependency_add")
        || str_equals(operation, "issue_dependency_remove")
        || str_equals(operation, "issue_dependency_list")
        || str_equals(operation, "issue_parent_set")
        || str_equals(operation, "issue_parent_list")
        || str_equals(operation, "issue_claim")
        || str_equals(operation, "issue_heartbeat")
        || str_equals(operation, "issue_takeover")
        || str_equals(operation, "decision_request")
        || str_equals(operation, "decision_list")
        || str_equals(operation, "decision_resolve")
        || str_equals(operation, "issue_start")
        || str_equals(operation, "issue_block")
        || str_equals(operation, "issue_resume")
        || str_equals(operation, "issue_complete")
        || str_equals(operation, "issue_cancel")
        || str_equals(operation, "issue_reopen") {
        Some("issue")
    } else {
        None
    }
}

/// The operations whose audit entries carry an Issue revision.
pub open spec fn spec_operation_allows_revision(op: Seq<char>) -> bool {
    op == "issue_create"@
        || op == "issue_show"@
        || op == "issue_edit"@
        || op == "issue_comment"@
        || op == "issue_history"@
        || op == "issue_dependency_add"@
        || op == "issue_dependency_remove"@
        || op == "issue_dependency_list"@
        || op == "issue_parent_set"@
        || op == "issue_parent_list"@
        || op == "issue_claim"@
        || op == "issue_heartbeat"@
        || op == "issue_takeover"@
        || op == "decision_request"@
        || op == "decision_list"@
        || op == "decision_resolve"@
        || op == "issue_start"@
        || op == "issue_block"@
        || op == "issue_resume"@
        || op == "issue_complete"@
        || op == "issue_cancel"@
        || op == "issue_reopen"@
}

pub fn operation_allows_revision(operation: &str) -> (b: bool)
    ensures
        b == spec_operation_allows_revision(operation@),
{
    str_equals(operation, "issue_create")
        || str_equals(operation, "issue_show")
        || str_equals(operation, "issue_edit")
        || str_equals(operation, "issue_comment")
        || str_equals(operation, "issue_history")
        || str_equals(operation, "issue_dependency_add")
        || str_equals(operation, "issue_dependency_remove")
        || str_equals(operation, "issue_dependency_list")
        || str_equals(operation, "issue_parent_set")
        || str_equals(operation, "issue_parent_list")
        || str_equals(operation, "issue_claim")
        || str_equals(operation, "issue_heartbeat")
        || str_equals(operation, "issue_takeover")
        || str_equals(operation, "decision_request")
        || str_equals(operation, "decision_list")
        || str_equals(operation, "decision_resolve")
        || str_equals(operation, "issue_start")
        || str_equals(operation, "issue_block")
        || str_equals(operation, "issue_resume")
        || str_equals(operation, "issue_complete")
        || str_equals(operation, "issue_cancel")
        || str_equals(operation, "issue_reopen")
}
/// The fields that an operation's audit entries may name as changed.
pub open spec fn spec_allowed_changed_fields(op: Seq<char>) -> Seq<Seq<char>> {
    if op == "project_create"@ {
        seq!["name"@]
    } else if op == "issue_create"@ {
        seq!["title"@, "body"@, "state"@, "priority"@]
    } else if op == "issue_edit"@ {
        seq!["title"@, "body"@, "priority"@, "assignee_kind"@, "assignee_name"@]
    } else if op == "issue_comment"@ {
        seq!["comment"@, "updated_at"@]
    } else if op == "issue_dependency_add"@ || op == "issue_dependency_remove"@ {
        seq!["dependencies"@]
    } else if op == "issue_parent_set"@ {
        seq!["parent"@]
    } else if op == "issue_claim"@ {
        seq!["state"@, "assignee_kind"@, "assignee_name"@]
    } else if op == "issue_takeover"@ {
        seq!["state"@, "assignee_kind"@, "assignee_name"@]
    } else if op == "decision_request"@ {
        seq!["state"@, "decision_request"@]
    } else if op == "decision_resolve"@ {
        seq!["decision"@, "state"@, "reason"@, "wait_kind"@, "summary"@, "verification"@]
    } else if op == "issue_start"@ || op == "issue_resume"@ {
        seq!["state"@]
    } else if op == "issue_block"@ {
        seq!["state"@, "reason"@, "wait_kind"@]
    } else if op == "issue_complete"@ {
        seq!["state"@, "summary"@, "verification"@]
    } else if op == "issue_cancel"@ || op == "issue_reopen"@ {
        seq!["state"@, "reason"@]
    } else {
        seq![]
    }
}

pub fn allowed_changed_fields(operation: &str) -> (v: Vec<&'static str>)
    ensures
        str_views(v@) == spec_allowed_changed_fields(operation@),
{
    let v: Vec<&'static str> = if str_equals(operation, "project_create") {
        vec!["name"]
    } else if str_equals(operation, "issue_create") {
        vec!["title", "body", "state", "priority"]
    } else if str_equals(operation, "issue_edit") {
        vec!["title", "body", "priority", "assignee_kind", "assignee_name"]
    } else if str_equals(operation, "issue_comment") {
        vec!["comment", "updated_at"]
    } else if str_equals(operation, "issue_dependency_add") || str_equals(operation, "issue_dependency_remove") {
        vec!["dependencies"]
    } else if str_equals(operation, "issue_parent_set") {
        vec!["parent"]
    } else if str_equals(operation, "issue_claim") {
        vec!["state", "assignee_kind", "assignee_name"]
    } else if str_equals(operation, "issue_takeover") {
        vec!["state", "assignee_kind", "assignee_name"]
    } else if str_equals(operation, "decision_request") {
        vec!["state", "decision_request"]
    } else if str_equals(operation, "decision_resolve") {
        vec!["decision", "state", "reason", "wait_kind", "summary", "verification"]
    } else if str_equals(operation, "issue_start") || str_equals(operation, "issue_resume") {
        vec!["state"]
    } else if str_equals(operation, "issue_block") {
        vec!["state", "reason", "wait_kind"]
    } else if str_equals(operation, "issue_complete") {
        vec!["state", "summary", "verification"]
    } else if str_equals(operation, "issue_cancel") || str_equals(operation, "issue_reopen") {
        vec!["state", "reason"]
    } else {
        Vec::new()
    };
    proof {
        assert(str_views(v@) =~= spec_allowed_changed_fields(operation@));
    }
    v
}

/// The fields that a domain event of a given type changed; `issue_updated` names its own.
pub open spec fn spec_event_fields(op: Seq<char>) -> Seq<Seq<char>> {
    if op == "project_created"@ {
        seq!["name"@]
    } else if op == "issue_created"@ {
        seq!["title"@, "body"@, "state"@, "priority"@]
    } else if op == "comment_added"@ {
        seq!["comment"@, "updated_at"@]
    } else if op == "issue_started"@ || op == "issue_resumed"@ {
        seq!["state"@]
    } else if op == "issue_blocked"@ {
        seq!["state"@, "reason"@, "wait_kind"@]
    } else if op == "issue_completed"@ {
        seq!["state"@, "summary"@, "verification"@]
    } else if op == "issue_cancelled"@ || op == "issue_reopened"@ {
        seq!["state"@, "reason"@]
    } else if op == "issue_dependency_added"@ || op == "issue_dependency_removed"@ {
        seq!["dependencies"@]
    } else if op == "issue_parent_set"@ {
        seq!["parent"@]
    } else if op == "issue_claimed"@ {
        seq!["state"@, "assignee_kind"@, "assignee_name"@]
    } else if op == "issue_taken_over"@ {
        seq!["state"@, "assignee_kind"@, "assignee_name"@]
    } else if op == "decision_requested"@ {
        seq!["state"@, "decision_request"@]
    } else if op == "decision_resolved"@ {
        seq!["decision"@, "state"@]
    } else {
        seq![]
    }
}

pub fn event_type_changed_fields(event_type: &str) -> (v: Vec<&'static str>)
    ensures
        str_views(v@) == spec_event_fields(event_type@),
{
    let v: Vec<&'static str> = if str_equals(event_type, "project_created") {
        vec!["name"]
    } else if str_equals(event_type, "issue_created") {
        vec!["title", "body", "state", "priority"]
    } else if str_equals(event_type, "comment_added") {
        vec!["comment", "updated_at"]
    } else if str_equals(event_type, "issue_started") || str_equals(event_type, "issue_resumed") {
        vec!["state"]
    } else if str_equals(event_type, "issue_blocked") {
        vec!["state", "reason", "wait_kind"]
    } else if str_equals(event_type, "issue_completed") {
        vec!["state", "summary", "verification"]
    } else if str_equals(event_type, "issue_cancelled") || str_equals(event_type, "issue_reopened") {
        vec!["state", "reason"]
    } else if str_equals(event_type, "issue_dependency_added") || str_equals(event_type, "issue_dependency_removed") {
        vec!["dependencies"]
    } else if str_equals(event_type, "issue_parent_set") {
        vec!["parent"]
    } else if str_equals(event_type, "issue_claimed") {
        vec!["state", "assignee_kind", "assignee_name"]
    } else if str_equals(event_type, "issue_taken_over") {
        vec!["state", "assignee_kind", "assignee_name"]
    } else if str_equals(event_type, "decision_requested") {
        vec!["state", "decision_request"]
    } else if str_equals(event_type, "decision_resolved") {
        vec!["decision", "state"]
    } else {
        Vec::new()
    };
    proof {
        assert(str_views(v@) =~= spec_event_fields(event_type@));
    }
    v
}

/// The texts of a sequence of strings.
pub open spec fn texts(v: Seq<String>) -> Seq<Seq<char>> {
    v.map_values(|x: String| x@)
}

/// Every field of `fields` may be recorded as changed by `op`.
pub open spec fn fields_allowed(op: Seq<char>, fields: Seq<Seq<char>>) -> bool {
    forall|i: int| 0 <= i < fields.len() ==> spec_allowed_changed_fields(op).contains(#[trigger] fields[i])
}

fn is_allowed(allowed: &Vec<&'static str>, field: &str) -> (b: bool)
    ensures
        b == str_views(allowed@).contains(field@),
{
    let mut i: usize = 0;
    while i < allowed.len()
        invariant
            i <= allowed.len(),
            forall|j: int| 0 <= j < i ==> allowed@[j]@ != field@,
        decreases allowed.len() - i,
    {
        if str_equals(allowed[i], field) {
            assert(str_views(allowed@)[i as int] == field@);
            return true;
        }
        i = i + 1;
    }
    proof {
        if str_views(allowed@).contains(field@) {
            let k = choose|k: int| 0 <= k < str_views(allowed@).len() && #[trigger] str_views(allowed@)[k] == field@;
            assert(allowed@[k]@ == field@);
        }
    }
    false
}

/// An audit entry names as changed only fields that its operation allows;
/// anything else is an internal error.
pub fn check_changed_fields(operation: &str, fields: &Vec<&str>) -> (r: Result<(), AppError>)
    ensures
        fields_allowed(operation@, str_views(fields@)) ==> r is Ok,
        !fields_allowed(operation@, str_views(fields@)) ==> fails_with_internal(
            r,
            "audit operation "@ + operation@ + " contains a disallowed changed field"@,
        ),
{
    let allowed = allowed_changed_fields(operation);
    let mut i: usize = 0;
    while i < fields.len()
        invariant
            i <= fields.len(),
            str_views(allowed@) == spec_allowed_changed_fields(operation@),
            forall|j: int| 0 <= j < i ==> spec_allowed_changed_fields(operation@).contains(#[trigger] str_views(fields@)[j]),
        decreases fields.len() - i,
    {
        if !is_allowed(&allowed, fields[i]) {
            assert(str_views(fields@)[i as int] == fields@[i as int]@);
            return Err(
                AppError::Internal(
                    concat3("audit operation ", operation, " contains a disallowed changed field"),
                ),
            );
        }
        i = i + 1;
    }
    Ok(())
}

/// The stored changed fields that `op` allows, each once, in stored order.
pub open spec fn safe_fields(op: Seq<char>, stored: Seq<Seq<char>>) -> Seq<Seq<char>>
    decreases stored.len(),
{
    if stored.len() == 0 {
        Seq::empty()
    } else {
        let before = safe_fields(op, stored.drop_last());
        let f = stored.last();
        if spec_allowed_changed_fields(op).contains(f) && !before.contains(f) {
            before.push(f)
        } else {
            before
        }
    }
}

fn contains_text(v: &Vec<String>, s: &str) -> (b: bool)
    ensures
        b == texts(v@).contains(s@),
{
    let mut i: usize = 0;
    while i < v.len()
        invariant
            i <= v.len(),
            forall|j: int| 0 <= j < i ==> v@[j]@ != s@,
        decreases v.len() - i,
    {
        if str_equals(v[i].as_str(), s) {
            assert(texts(v@)[i as int] == s@);
            return true;
        }
        i = i + 1;
    }
    proof {
        if texts(v@).contains(s@) {
            let k = choose|k: int| 0 <= k < v@.len() && #[trigger] texts(v@)[k] == s@;
            assert(v@[k]@ == s@);
        }
    }
    false
}

/// The changed fields read back from the store, cut down to those that the
/// operation allows, without repeats.
pub fn safe_changed_fields(operation: &str, stored: &Vec<String>) -> (r: Vec<String>)
    ensures
        texts(r@) == safe_fields(operation@, texts(stored@)),
{
    let allowed = allowed_changed_fields(operation);
    let mut safe: Vec<String> = Vec::new();
    let mut i: usize = 0;
    while i < stored.len()
        invariant
            i <= stored.len(),
            str_views(allowed@) == spec_allowed_changed_fields(operation@),
            texts(safe@) == safe_fields(
                operation@,
                texts(stored@).take(i as int),
            ),
        decreases stored.len() - i,
    {
        let field = stored[i].as_str();
        proof {
            let all = texts(stored@);
            assert(all.take(i + 1).drop_last() =~= all.take(i as int));
            assert(all.take(i + 1).last() == field@);
        }
        if is_allowed(&allowed, field) && !contains_text(&safe, field) {
            let ghost before = texts(safe@);
            safe.push(stored[i].clone());
            assert(texts(safe@) =~= before.push(field@));
        }
        i = i + 1;
    }
    assert(texts(stored@).take(i as int) =~= texts(stored@));
    safe
}

/// The fields of an `issue_updated` event are the keys of its changes that
/// name an editable field.
pub open spec fn is_editable_field(f: Seq<char>) -> bool {
    f == "title"@ || f == "body"@ || f == "priority"@ || f == "assignee_kind"@ || f == "assignee_name"@
}

pub open spec fn editable_keys(keys: Seq<Seq<char>>) -> Seq<Seq<char>> {
    keys.filter(|f: Seq<char>| is_editable_field(f))
}

/// The fields that a domain event changed: those of its type, or, for an
/// edit, the keys of its recorded changes that name an editable field.
pub fn event_changed_fields(event_type: &str, change_keys: &Vec<String>) -> (r: Vec<String>)
    ensures
        event_type@ == "issue_updated"@ ==> texts(r@) == editable_keys(
            texts(change_keys@),
        ),
        event_type@ != "issue_updated"@ ==> texts(r@) == spec_event_fields(
            event_type@,
        ),
{
    let mut out: Vec<String> = Vec::new();
    if str_equals(event_type, "issue_updated") {
        let mut i: usize = 0;
        while i < change_keys.len()
            invariant
                i <= change_keys.len(),
                texts(out@) == editable_keys(
                    texts(change_keys@).take(i as int),
                ),
            decreases change_keys.len() - i,
        {
            let key = change_keys[i].as_str();
            let editable = str_equals(key, "title") || str_equals(key, "body") || str_equals(
                key,
                "priority",
            ) || str_equals(key, "assignee_kind") || str_equals(key, "assignee_name");
            proof {
                let all = texts(change_keys@);
                assert(all.take(i + 1).drop_last() =~= all.take(i as int));
                assert(all.take(i + 1).last() == key@);
                reveal(Seq::filter);
                assert(editable_keys(all.take(i + 1)) == if is_editable_field(key@) {
                    editable_keys(all.take(i as int)).push(key@)
                } else {
                    editable_keys(all.take(i as int))
                });
            }
            if editable {
                let ghost before = texts(out@);
                out.push(change_keys[i].clone());
                assert(texts(out@) =~= before.push(key@));
            }
            i = i + 1;
        }
        assert(texts(change_keys@).take(i as int) =~= texts(change_keys@));
        return out;
    }
    let fields = event_type_changed_fields(event_type);
    let mut j: usize = 0;
    while j < fields.len()
        invariant
            j <= fields.len(),
            texts(out@) == str_views(fields@).take(j as int),
        decreases fields.len() - j,
    {
        let ghost before = texts(out@);
        out.push(fields[j].to_owned());
        assert(str_views(fields@)[j as int] == fields@[j as int]@);
        assert(texts(out@) =~= before.push(fields@[j as int]@));
        assert(str_views(fields@).take(j + 1) =~= str_views(fields@).take(j as int).push(
            str_views(fields@)[j as int],
        ));
        j = j + 1;
    }
    assert(str_views(fields@).take(j as int) =~= str_views(fields@));
    out
}

/// A failure is audited unless auditing is off or the database was busy:
/// the audit would need the lock that the failed operation could not get.
pub fn records_failure(audit_enabled: bool, error: &AppError) -> (b: bool)
    ensures
        b == (audit_enabled && !(error is DatabaseBusy)),
{
    audit_enabled && !matches!(error, AppError::DatabaseBusy(_))
}

/// The revision that a failure audit records: the current one that a
/// revision conflict reports, else the one the operation saw.
pub fn failure_audit_revision(error: &AppError, seen: Option<i64>) -> (r: Option<i64>)
    ensures
        r == match *error {
            AppError::RevisionConflict { current_revision } => Some(current_revision),
            _ => seen,
        },
{
    match error {
        AppError::RevisionConflict { current_revision } => Some(*current_revision),
        _ => seen,
    }
}

proof fn lemma_table_fields_allowed(op: Seq<char>, fields: Seq<Seq<char>>)
    requires
        spec_allowed_changed_fields(op) == fields,
    ensures
        fields_allowed(op, fields),
{
    assert forall|i: int| 0 <= i < fields.len() implies spec_allowed_changed_fields(op).contains(
        #[trigger] fields[i],
    ) by {
        assert(spec_allowed_changed_fields(op)[i] == fields[i]);
    }
}

/// The names that the audit tables use are distinct texts.
proof fn lemma_audit_names()
    ensures
        "assignee_kind"@.len() == 13,
        "assignee_name"@.len() == 13,
        "body"@.len() == 4,
        "comment"@.len() == 7,
        "decision"@.len() == 8,
        "decision_request"@.len() == 16,
        "decision_resolve"@.len() == 16,
        "dependencies"@.len() == 12,
        "issue_block"@.len() == 11,
        "issue_cancel"@.len() == 12,
        "issue_claim"@.len() == 11,
        "issue_comment"@.len() == 13,
        "issue_complete"@.len() == 14,
        "issue_create"@.len() == 12,
        "issue_dependency_add"@.len() == 20,
        "issue_dependency_remove"@.len() == 23,
        "issue_edit"@.len() == 10,
        "issue_parent_set"@.len() == 16,
        "issue_reopen"@.len() == 12,
        "issue_resume"@.len() == 12,
        "issue_start"@.len() == 11,
        "issue_takeover"@.len() == 14,
        "name"@.len() == 4,
        "parent"@.len() == 6,
        "priority"@.len() == 8,
        "project_create"@.len() == 14,
        "reason"@.len() == 6,
        "state"@.len() == 5,
        "summary"@.len() == 7,
        "title"@.len() == 5,
        "updated_at"@.len() == 10,
        "verification"@.len() == 12,
        "wait_kind"@.len() == 9,
        "assignee_kind"@ != "assignee_name"@,
        "assignee_kind"@ != "issue_comment"@,
        "assignee_name"@ != "issue_comment"@,
        "body"@ != "name"@,
        "comment"@ != "summary"@,
        "decision"@ != "priority"@,
        "decision_request"@ != "decision_resolve"@,
        "decision_request"@ != "issue_parent_set"@,
        "decision_resolve"@ != "issue_parent_set"@,
        "dependencies"@ != "issue_cancel"@,
        "dependencies"@ != "issue_create"@,
        "dependencies"@ != "issue_reopen"@,
        "dependencies"@ != "issue_resume"@,
        "dependencies"@ != "verification"@,
        "issue_block"@ != "issue_claim"@,
        "issue_block"@ != "issue_start"@,
        "issue_cancel"@ != "issue_create"@,
        "issue_cancel"@ != "issue_reopen"@,
        "issue_cancel"@ != "issue_resume"@,
        "issue_cancel"@ != "verification"@,
        "issue_claim"@ != "issue_start"@,
        "issue_complete"@ != "issue_takeover"@,
        "issue_complete"@ != "project_create"@,
        "issue_create"@ != "issue_reopen"@,
        "issue_create"@ != "issue_resume"@,
        "issue_create"@ != "verification"@,
        "issue_edit"@ != "updated_at"@,
        "issue_reopen"@ != "issue_resume"@,
        "issue_reopen"@ != "verification"@,
        "issue_resume"@ != "verification"@,
        "issue_takeover"@ != "project_create"@,
        "parent"@ != "reason"@,
        "state"@ != "title"@,
{
    reveal_strlit("assignee_kind");
    reveal_strlit("assignee_name");
    reveal_strlit("body");
    reveal_strlit("comment");
    reveal_strlit("decision");
    reveal_strlit("decision_request");
    reveal_strlit("decision_resolve");
    reveal_strlit("dependencies");
    reveal_strlit("issue_block");
    reveal_strlit("issue_cancel");
    reveal_strlit("issue_claim");
    reveal_strlit("issue_comment");
    reveal_strlit("issue_complete");
    reveal_strlit("issue_create");
    reveal_strlit("issue_dependency_add");
    reveal_strlit("issue_dependency_remove");
    reveal_strlit("issue_edit");
    reveal_strlit("issue_parent_set");
    reveal_strlit("issue_reopen");
    reveal_strlit("issue_resume");
    reveal_strlit("issue_start");
    reveal_strlit("issue_takeover");
    reveal_strlit("name");
    reveal_strlit("parent");
    reveal_strlit("priority");
    reveal_strlit("project_create");
    reveal_strlit("reason");
    reveal_strlit("state");
    reveal_strlit("summary");
    reveal_strlit("title");
    reveal_strlit("updated_at");
    reveal_strlit("verification");
    reveal_strlit("wait_kind");
    assert("assignee_kind"@.len() == 13);
    assert("assignee_name"@.len() == 13);
    assert("body"@.len() == 4);
    assert("comment"@.len() == 7);
    assert("decision"@.len() == 8);
    assert("decision_request"@.len() == 16);
    assert("decision_resolve"@.len() == 16);
    assert("dependencies"@.len() == 12);
    assert("issue_block"@.len() == 11);
    assert("issue_cancel"@.len() == 12);
    assert("issue_claim"@.len() == 11);
    assert("issue_comment"@.len() == 13);
    assert("issue_complete"@.len() == 14);
    assert("issue_create"@.len() == 12);
    assert("issue_dependency_add"@.len() == 20);
    assert("issue_dependency_remove"@.len() == 23);
    assert("issue_edit"@.len() == 10);
    assert("issue_parent_set"@.len() == 16);
    assert("issue_reopen"@.len() == 12);
    assert("issue_resume"@.len() == 12);
    assert("issue_start"@.len() == 11);
    assert("issue_takeover"@.len() == 14);
    assert("name"@.len() == 4);
    assert("parent"@.len() == 6);
    assert("priority"@.len() == 8);
    assert("project_create"@.len() == 14);
    assert("reason"@.len() == 6);
    assert("state"@.len() == 5);
    assert("summary"@.len() == 7);
    assert("title"@.len() == 5);
    assert("updated_at"@.len() == 10);
    assert("verification"@.len() == 12);
    assert("wait_kind"@.len() == 9);
    assert("assignee_kind"@[9] != "assignee_name"@[9]);
    assert("assignee_kind"@[0] != "issue_comment"@[0]);
    assert("assignee_name"@[0] != "issue_comment"@[0]);
    assert("body"@[0] != "name"@[0]);
    assert("comment"@[0] != "summary"@[0]);
    assert("decision"@[0] != "priority"@[0]);
    assert("decision_request"@[11] != "decision_resolve"@[11]);
    assert("decision_request"@[0] != "issue_parent_set"@[0]);
    assert("decision_resolve"@[0] != "issue_parent_set"@[0]);
    assert("dependencies"@[0] != "issue_cancel"@[0]);
    assert("dependencies"@[0] != "issue_create"@[0]);
    assert("dependencies"@[0] != "issue_reopen"@[0]);
    assert("dependencies"@[0] != "issue_resume"@[0]);
    assert("dependencies"@[0] != "verification"@[0]);
    assert("issue_block"@[6] != "issue_claim"@[6]);
    assert("issue_block"@[6] != "issue_start"@[6]);
    assert("issue_cancel"@[7] != "issue_create"@[7]);
    assert("issue_cancel"@[6] != "issue_reopen"@[6]);
    assert("issue_cancel"@[6] != "issue_resume"@[6]);
    assert("issue_cancel"@[0] != "verification"@[0]);
    assert("issue_claim"@[6] != "issue_start"@[6]);
    assert("issue_complete"@[6] != "issue_takeover"@[6]);
    assert("issue_complete"@[0] != "project_create"@[0]);
    assert("issue_create"@[6] != "issue_reopen"@[6]);
    assert("issue_create"@[6] != "issue_resume"@[6]);
    assert("issue_create"@[0] != "verification"@[0]);
    assert("issue_edit"@[0] != "updated_at"@[0]);
    assert("issue_reopen"@[8] != "issue_resume"@[8]);
    assert("issue_reopen"@[0] != "verification"@[0]);
    assert("issue_resume"@[0] != "verification"@[0]);
    assert("issue_takeover"@[0] != "project_create"@[0]);
    assert("parent"@[0] != "reason"@[0]);
    assert("state"@[0] != "title"@[0]);
}

/// Every field that a transition records as changed is one that its
/// operation's audit entries may name.
pub proof fn law_transition_fields_allowed(kind: TransitionKind)
    ensures
        fields_allowed(transition_kind_operation(kind), transition_kind_changed_fields(kind)),
{
    lemma_audit_names();
    let op = transition_kind_operation(kind);
    assert(spec_allowed_changed_fields(op) =~= transition_kind_changed_fields(kind));
    lemma_table_fields_allowed(op, transition_kind_changed_fields(kind));
}

/// Every field that creating an Issue records as changed is one that
/// `issue_create` may name.
pub proof fn law_new_issue_fields_allowed(issue: NewIssue)
    ensures
        fields_allowed("issue_create"@, new_issue_changed_fields(issue)),
{
    lemma_audit_names();
    let allowed = spec_allowed_changed_fields("issue_create"@);
    assert(allowed =~= seq!["title"@, "body"@, "state"@, "priority"@]);
    let f = new_issue_changed_fields(issue);
    assert forall|i: int| 0 <= i < f.len() implies allowed.contains(#[trigger] f[i]) by {
        if f[i] == "title"@ {
            assert(allowed[0] == f[i]);
        } else if f[i] == "body"@ {
            assert(allowed[1] == f[i]);
        } else if f[i] == "state"@ {
            assert(allowed[2] == f[i]);
        } else {
            assert(allowed[3] == f[i]);
        }
    }
}

/// Every field that an edit records as changed is one that `issue_edit` may
/// name.
pub proof fn law_edit_fields_allowed(patch: IssuePatch, before: Issue, after: Issue)
    ensures
        fields_allowed("issue_edit"@, patch_changed_fields(patch, before, after)),
{
    lemma_audit_names();
    let allowed = spec_allowed_changed_fields("issue_edit"@);
    assert(allowed =~= seq!["title"@, "body"@, "priority"@, "assignee_kind"@, "assignee_name"@]);
    let f = patch_changed_fields(patch, before, after);
    assert forall|i: int| 0 <= i < f.len() implies allowed.contains(#[trigger] f[i]) by {
        if f[i] == "title"@ {
            assert(allowed[0] == f[i]);
        } else if f[i] == "body"@ {
            assert(allowed[1] == f[i]);
        } else if f[i] == "priority"@ {
            assert(allowed[2] == f[i]);
        } else if f[i] == "assignee_kind"@ {
            assert(allowed[3] == f[i]);
        } else {
            assert(allowed[4] == f[i]);
        }
    }
}

/// Every field that a decision resolution records as changed is one that
/// `decision_resolve` may name.
pub proof fn law_resolution_fields_allowed(target: IssueState)
    ensures
        fields_allowed("decision_resolve"@, resolution_changed_fields(target)),
{
    lemma_audit_names();
    let allowed = spec_allowed_changed_fields("decision_resolve"@);
    assert(allowed =~= seq![
        "decision"@,
        "state"@,
        "reason"@,
        "wait_kind"@,
        "summary"@,
        "verification"@,
    ]);
    let f = resolution_changed_fields(target);
    assert forall|i: int| 0 <= i < f.len() implies allowed.contains(#[trigger] f[i]) by {
        if f[i] == "decision"@ {
            assert(allowed[0] == f[i]);
        } else if f[i] == "state"@ {
            assert(allowed[1] == f[i]);
        } else if f[i] == "reason"@ {
            assert(allowed[2] == f[i]);
        } else if f[i] == "wait_kind"@ {
            assert(allowed[3] == f[i]);
        } else if f[i] == "summary"@ {
            assert(allowed[4] == f[i]);
        } else {
            assert(allowed[5] == f[i]);
        }
    }
}

/// The keys of the changes that a domain event's metadata records.
pub open spec fn change_keys(metadata: Json) -> Seq<Seq<char>> {
    match member_of(metadata, "changes"@) {
        Some(Json::Object(m)) => m@.map_values(|x: (String, Json)| x.0@),
        _ => Seq::empty(),
    }
}

/// The revision that a domain event's metadata records.
pub open spec fn metadata_revision(metadata: Json) -> Option<i64> {
    opt_int(member_of(metadata, "revision"@))
}

/// What the event feed shows of a domain event's stored metadata: the
/// fields the event changed and the revision it records. The metadata must
/// be JSON.
pub fn event_record_fields(event_type: &str, metadata_json: &str) -> (r: Result<
    (Vec<String>, Option<i64>),
    AppError,
>)
    ensures
        match json_document(encode_utf8(metadata_json@)) {
            None => fails_with_internal(r, "domain event metadata is not valid JSON"@),
            Some(doc) => r matches Ok((fields, revision)) && revision == metadata_revision(doc)
                && texts(fields@) == if event_type@ == "issue_updated"@ {
                editable_keys(change_keys(doc))
            } else {
                spec_event_fields(event_type@)
            },
        },
{
    let doc = match parse_json(metadata_json.as_bytes()) {
        Some(doc) => doc,
        None => {
            return Err(crate::error::internal("domain event metadata is not valid JSON"));
        },
    };
    let mut keys: Vec<String> = Vec::new();
    let mut revision: Option<i64> = None;
    if let Json::Object(members) = &doc {
        if let Some(Json::Object(changes)) = find_member(members, "changes") {
            let mut i: usize = 0;
            while i < changes.len()
                invariant
                    i <= changes.len(),
                    texts(keys@) == changes@.take(i as int).map_values(|x: (String, Json)| x.0@),
                decreases changes.len() - i,
            {
                keys.push(changes[i].0.clone());
                assert(changes@.take(i + 1).map_values(|x: (String, Json)| x.0@) =~= changes@.take(
                    i as int,
                ).map_values(|x: (String, Json)| x.0@).push(changes@[i as int].0@));
                assert(texts(keys@) =~= texts(keys@.drop_last()).push(keys@.last()@));
                i = i + 1;
            }
            assert(changes@.take(i as int) =~= changes@);
        }
        if let Some(j) = find_member(members, "revision") {
            revision = read_int(j);
        }
    }
    let fields = event_changed_fields(event_type, &keys);
    Ok((fields, revision))
}

/// The changed fields of a stored audit event, as an audit listing shows
/// them: the stored JSON list of texts, cut down to those that the operation
/// allows, without repeats.
pub fn audit_record_changed_fields(operation: &str, changed_fields_json: &str) -> (r: Result<
    Vec<String>,
    AppError,
>)
    ensures
        match crate::store::jsonl::text_list(json_document(encode_utf8(changed_fields_json@))) {
            None => fails_with_internal(r, "audit event changed fields are not valid JSON"@),
            Some(stored) => r matches Ok(v) && texts(v@) == safe_fields(operation@, stored),
        },
{
    match crate::store::jsonl::text_list_of(parse_json(changed_fields_json.as_bytes())) {
        Some(stored) => Ok(safe_changed_fields(operation, &stored)),
        None => Err(crate::error::internal("audit event changed fields are not valid JSON")),
    }
}

} // verus!
