//! Properties of the issue domain that hold across its operations.
use crate::domain::{
    issue_state_name, last_index_of, next_state, parse_issue_state, parse_reference_spec,
    project_name_error, IssueReference, IssueState, TransitionKind, patched, IssuePatch, Issue,
};
use crate::text::{all_digits, digit_char, digit_value, digits_value, int_decimal, is_ascii_digit, nat_decimal, parse_i64_spec};
use vstd::prelude::*;

verus! {

/// A transition always changes the state of an Issue.
pub proof fn law_transitions_change_state(from: IssueState, kind: TransitionKind)
    ensures
        next_state(from, kind) matches Some(to) ==> to != from,
{
}

/// A finished Issue (`done` or `cancelled`) can only be reopened, and
/// reopening returns it to `todo`.
pub proof fn law_finished_issues_only_reopen(from: IssueState, kind: TransitionKind)
    requires
        from == IssueState::Done || from == IssueState::Cancelled,
    ensures
        next_state(from, kind) is Some <==> kind == TransitionKind::Reopen,
        kind == TransitionKind::Reopen ==> next_state(from, kind) == Some(IssueState::Todo),
{
}

/// Work is done only from `in_progress`: completing is refused in every
/// other state.
pub proof fn law_completion_needs_progress(from: IssueState)
    ensures
        next_state(from, TransitionKind::Complete) is Some <==> from == IssueState::InProgress,
{
}

/// Every state can reach every other through allowed transitions: from any
/// state some sequence of at most three transitions leads back to `todo`.
pub proof fn law_every_state_returns_to_todo(from: IssueState)
    ensures
        from == IssueState::Todo || next_state(from, TransitionKind::Reopen) == Some(IssueState::Todo)
            || (next_state(from, TransitionKind::Cancel) matches Some(c) && next_state(
            c,
            TransitionKind::Reopen,
        ) == Some(IssueState::Todo)),
{
}

/// The name of a state reads back as that state.
pub proof fn law_state_name_round_trip(s: IssueState)
    ensures
        parse_issue_state(issue_state_name(s)) == Some(s),
{
    reveal_strlit("todo");
    reveal_strlit("in_progress");
    reveal_strlit("blocked");
    reveal_strlit("done");
    reveal_strlit("cancelled");
    assert("todo"@.len() == 4);
    assert("in_progress"@.len() == 11);
    assert("blocked"@.len() == 7);
    assert("done"@.len() == 4);
    assert("cancelled"@.len() == 9);
    assert("todo"@[0] != "done"@[0]);
}

proof fn lemma_digit_char(d: nat)
    requires
        d < 10,
    ensures
        is_ascii_digit(digit_char(d)),
        digit_value(digit_char(d)) == d,
        digit_char(d) != '#',
        digit_char(d) != '-',
        digit_char(d) != '+',
{
}

proof fn lemma_nat_decimal(n: nat)
    ensures
        nat_decimal(n).len() > 0,
        all_digits(nat_decimal(n)),
        digits_value(nat_decimal(n)) == n,
        forall|i: int| 0 <= i < nat_decimal(n).len() ==> #[trigger] nat_decimal(n)[i] != '#',
    decreases n,
{
    if n < 10 {
        lemma_digit_char(n);
        assert(nat_decimal(n) =~= seq![digit_char(n)]);
        assert(seq![digit_char(n)].drop_last() =~= Seq::<char>::empty());
        assert(digits_value(nat_decimal(n)) == digits_value(Seq::<char>::empty()) * 10 + digit_value(digit_char(n)));
    } else {
        lemma_nat_decimal(n / 10);
        lemma_digit_char(n % 10);
        let s = nat_decimal(n);
        let prefix = nat_decimal(n / 10);
        assert(s == prefix.push(digit_char(n % 10)));
        assert(s.drop_last() =~= prefix);
        assert(digits_value(s) == digits_value(prefix) * 10 + digit_value(s.last()));
        assert((n / 10) * 10 + n % 10 == n) by (nonlinear_arith);
        assert(all_digits(s)) by {
            assert forall|i: int| 0 <= i < s.len() implies is_ascii_digit(#[trigger] s[i]) by {
                if i < prefix.len() {
                    assert(s[i] == prefix[i]);
                }
            }
        }
        assert forall|i: int| 0 <= i < s.len() implies #[trigger] s[i] != '#' by {
            if i < prefix.len() {
                assert(s[i] == prefix[i]);
            }
        }
    }
}

proof fn lemma_last_index_after(a: Seq<char>, c: char, b: Seq<char>)
    requires
        forall|i: int| 0 <= i < b.len() ==> #[trigger] b[i] != c,
    ensures
        last_index_of(a + seq![c] + b, c) == a.len(),
    decreases b.len(),
{
    let s = a + seq![c] + b;
    if b.len() == 0 {
        assert(s.last() == c);
    } else {
        assert(s.last() == b.last());
        assert(s.drop_last() =~= a + seq![c] + b.drop_last());
        lemma_last_index_after(a, c, b.drop_last());
    }
}

/// The text that `label` writes for a reference.
pub open spec fn label_spec(r: IssueReference) -> Seq<char> {
    r.project@ + "#"@ + int_decimal(r.number as int)
}

/// Reading a reference's label gives the reference back, whatever the default
/// project, when its project is a valid name and its number is positive: the
/// number is read after the last `#`.
pub proof fn law_reference_label_round_trip(r: IssueReference, default_project: Option<Seq<char>>)
    requires
        project_name_error(r.project@) is None,
        r.number >= 1,
    ensures
        parse_reference_spec(label_spec(r), default_project) == Ok::<(Seq<char>, int), Seq<char>>(
            (r.project@, r.number as int),
        ),
{
    reveal_strlit("#");
    let n = r.number as nat;
    let digits = nat_decimal(n);
    lemma_nat_decimal(n);
    assert("#"@ =~= seq!['#']);
    let value = label_spec(r);
    assert(value =~= r.project@ + seq!['#'] + digits);
    lemma_last_index_after(r.project@, '#', digits);
    let i = r.project@.len() as int;
    assert(value.take(i) =~= r.project@);
    assert(value.skip(i + 1) =~= digits);
    assert(digits[0] != '-' && digits[0] != '+') by {
        assert(is_ascii_digit(digits[0]));
    }
}

/// Applying the same edit twice changes nothing more than applying it once.
pub proof fn law_edit_is_idempotent(issue: Issue, patch: IssuePatch)
    ensures
        patched(patched(issue, patch), patch) == patched(issue, patch),
{
}

/// An edit changes only the fields that it provides.
pub proof fn law_edit_keeps_unprovided_fields(issue: Issue, patch: IssuePatch)
    ensures
        patch.title is None ==> patched(issue, patch).title == issue.title,
        patch.body is None ==> patched(issue, patch).body == issue.body,
        patch.priority is None ==> patched(issue, patch).priority == issue.priority,
        patch.assignee_kind is None ==> patched(issue, patch).assignee_kind == issue.assignee_kind,
        patch.assignee_name is None ==> patched(issue, patch).assignee_name == issue.assignee_name,
        patched(issue, patch).state == issue.state,
        patched(issue, patch).revision == issue.revision,
        patched(issue, patch).id == issue.id,
        patched(issue, patch).number == issue.number,
{
}

/// The transition table: start only from `todo` into `in_progress`; block
/// only from `in_progress` into `blocked`; resume only from `blocked` back to
/// `in_progress`; complete only from `in_progress` into `done`; cancel only
/// from `in_progress` or `blocked` into `cancelled`; reopen only from `done`
/// or `cancelled` into `todo`.
pub proof fn law_transition_table(from: IssueState, kind: TransitionKind)
    ensures
        kind == TransitionKind::Start ==> (next_state(from, kind) is Some <==> from == IssueState::Todo),
        kind == TransitionKind::Block ==> (next_state(from, kind) is Some <==> from == IssueState::InProgress),
        kind == TransitionKind::Resume ==> (next_state(from, kind) is Some <==> from == IssueState::Blocked),
        kind == TransitionKind::Complete ==> (next_state(from, kind) is Some <==> from
            == IssueState::InProgress),
        kind == TransitionKind::Cancel ==> (next_state(from, kind) is Some <==> (from == IssueState::InProgress
            || from == IssueState::Blocked)),
        kind == TransitionKind::Reopen ==> (next_state(from, kind) is Some <==> (from == IssueState::Done
            || from == IssueState::Cancelled)),
        next_state(from, kind) matches Some(to) ==> to == match kind {
            TransitionKind::Start => IssueState::InProgress,
            TransitionKind::Block => IssueState::Blocked,
            TransitionKind::Resume => IssueState::InProgress,
            TransitionKind::Complete => IssueState::Done,
            TransitionKind::Cancel => IssueState::Cancelled,
            TransitionKind::Reopen => IssueState::Todo,
        },
{
}

/// An edit sets every field that it provides to the value it provides.
pub proof fn law_edit_sets_provided_fields(issue: Issue, patch: IssuePatch)
    ensures
        patch.title matches Some(t) ==> patched(issue, patch).title == t,
        patch.body matches Some(b) ==> patched(issue, patch).body == b,
        patch.priority matches Some(p) ==> patched(issue, patch).priority == p,
        patch.assignee_kind matches Some(k) ==> patched(issue, patch).assignee_kind == k,
        patch.assignee_name matches Some(n) ==> patched(issue, patch).assignee_name == n,
{
}

} // verus!
