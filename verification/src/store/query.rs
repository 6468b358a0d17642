//! The SQL of an Issue listing: its filters as `WHERE` clauses with their
//! parameters, and its order.
use crate::domain::{issue_state_name, priority_name, IssueFilter, IssueState, Priority};
use crate::text::{chars_of, concat, push_char, push_str};
use vstd::prelude::*;

verus! {

/// A time in nanoseconds since the Unix epoch, as RFC 3339 text in UTC.
pub uninterp spec fn rfc3339_of(nanos: i64) -> Seq<char>;

/// Writes a time with `chrono`'s `DateTime::from_timestamp_nanos` and
/// `to_rfc3339`; every `i64` of nanoseconds is a date that `chrono` holds.
/// The text depends on the time alone; its form is not stated here.
#[verifier::external_body]
fn format_rfc3339(nanos: i64) -> (s: String)
    ensures
        s@ == rfc3339_of(nanos),
{
    chrono::DateTime::from_timestamp_nanos(nanos).to_rfc3339()
}

/// A character of a `LIKE` pattern taken literally: `\`, `%` and `_` are
/// escaped with `\`.
pub open spec fn escape_like_char(c: char) -> Seq<char> {
    if c == '\\' || c == '%' || c == '_' {
        seq!['\\', c]
    } else {
        seq![c]
    }
}

pub open spec fn escape_like_spec(s: Seq<char>) -> Seq<char>
    decreases s.len(),
{
    if s.len() == 0 {
        Seq::empty()
    } else {
        escape_like_spec(s.drop_last()) + escape_like_char(s.last())
    }
}

/// Escapes a text for a `LIKE ... ESCAPE '\'` pattern.
pub fn escape_like(value: &str) -> (s: String)
    ensures
        s@ == escape_like_spec(value@),
{
    let chars = chars_of(value);
    let mut s = String::new();
    let mut i: usize = 0;
    while i < chars.len()
        invariant
            i <= chars.len(),
            chars@ == value@,
            s@ == escape_like_spec(chars@.take(i as int)),
        decreases chars.len() - i,
    {
        let c = chars[i];
        if c == '\\' || c == '%' || c == '_' {
            push_char(&mut s, '\\');
        }
        push_char(&mut s, c);
        assert(chars@.take(i + 1).drop_last() =~= chars@.take(i as int));
        i = i + 1;
    }
    assert(chars@.take(i as int) =~= chars@);
    s
}

/// ` AND column IN (?, ?, …)` with one placeholder a value.
pub open spec fn in_clause_spec(column: Seq<char>, n: nat) -> Seq<char> {
    " AND "@ + column + " IN ("@ + placeholders(n) + ")"@
}

pub open spec fn placeholders(n: nat) -> Seq<char>
    decreases n,
{
    if n == 0 {
        Seq::empty()
    } else if n == 1 {
        "?"@
    } else {
        placeholders((n - 1) as nat) + ", ?"@
    }
}

/// The clause that keeps rows whose `column` is one of `n` values; none
/// when there is no value.
pub fn in_clause(column: &str, n: usize) -> (s: String)
    ensures
        n == 0 ==> s@.len() == 0,
        n > 0 ==> s@ == in_clause_spec(column@, n as nat),
{
    if n == 0 {
        return String::new();
    }
    let mut marks = String::new();
    let mut k: usize = 0;
    while k < n
        invariant
            k <= n,
            marks@ == placeholders(k as nat),
        decreases n - k,
    {
        if k == 0 {
            push_str(&mut marks, "?");
        } else {
            push_str(&mut marks, ", ?");
        }
        k = k + 1;
    }
    let mut s = concat(" AND ", column);
    push_str(&mut s, " IN (");
    push_str(&mut s, marks.as_str());
    push_str(&mut s, ")");
    s
}

/// The order of an Issue listing: blocked, then in progress, to do, done,
/// cancelled; within a state by priority from critical down, then by age,
/// project and number.
pub const ISSUE_LIST_ORDER: &'static str = " ORDER BY CASE WHEN 0 THEN 0 ELSE 1 END ASC, CASE i.state WHEN 'blocked' THEN 0 WHEN 'in_progress' THEN 1 WHEN 'todo' THEN 2 WHEN 'done' THEN 3 WHEN 'cancelled' THEN 4 ELSE 5 END ASC, CASE i.priority WHEN 'critical' THEN 0 WHEN 'high' THEN 1 WHEN 'medium' THEN 2 WHEN 'low' THEN 3 ELSE 4 END ASC, i.created_at ASC, p.name ASC, i.number ASC";

/// The columns and joins of an Issue listing.
pub const ISSUE_LIST_SELECT: &'static str = "SELECT p.name, i.id, i.project_id, i.number, i.title, i.body, i.state, i.priority, i.assignee_kind, i.assignee_name, i.revision, i.created_at, i.updated_at FROM issues i JOIN projects p ON p.id = i.project_id WHERE 1 = 1";

/// The parameters of an Issue listing, in the order of its placeholders:
/// the projects, the states, the priorities, the assignee, the time after
/// which Issues were updated, and the text pattern twice.
pub open spec fn list_parameters(filter: IssueFilter, updated_after: Option<Seq<char>>) -> Seq<Seq<char>> {
    filter.projects@.map_values(|p: String| p@) + filter.states@.map_values(
        |s: IssueState| issue_state_name(s),
    ) + filter.priorities@.map_values(|p: Priority| priority_name(p)) + (match filter.assignee {
        Some(a) => seq![a@],
        None => seq![],
    }) + (match updated_after {
        Some(t) => seq![t],
        None => seq![],
    }) + (match filter.query {
        Some(q) => seq!["%"@ + escape_like_spec(q@) + "%"@, "%"@ + escape_like_spec(q@) + "%"@],
        None => seq![],
    })
}

/// The SQL of an Issue listing: the selection, one condition for each part
/// of the filter that is set, and the listing order. Without states, done and
/// cancelled Issues are left out unless the filter includes them.
pub open spec fn list_sql(filter: IssueFilter) -> Seq<char> {
    ISSUE_LIST_SELECT@ + (if filter.projects@.len() == 0 {
        Seq::empty()
    } else {
        in_clause_spec("p.name"@, filter.projects@.len())
    }) + (if filter.states@.len() == 0 {
        if filter.include_done {
            Seq::empty()
        } else {
            " AND i.state NOT IN ('done', 'cancelled')"@
        }
    } else {
        in_clause_spec("i.state"@, filter.states@.len())
    }) + (if filter.priorities@.len() == 0 {
        Seq::empty()
    } else {
        in_clause_spec("i.priority"@, filter.priorities@.len())
    }) + (if filter.assignee is Some {
        " AND i.assignee_name = ?"@
    } else {
        Seq::empty()
    }) + (if filter.updated_after is Some {
        " AND i.updated_at > ?"@
    } else {
        Seq::empty()
    }) + (if filter.query is Some {
        " AND (i.title LIKE ? ESCAPE '\\' OR COALESCE(i.body, '') LIKE ? ESCAPE '\\')"@
    } else {
        Seq::empty()
    }) + ISSUE_LIST_ORDER@
}

/// The SQL and parameters of an Issue listing.
pub fn issue_list_query(filter: &IssueFilter) -> (r: (String, Vec<String>))
    ensures
        r.0@ == list_sql(*filter),
        r.1@.map_values(|p: String| p@) == list_parameters(
            *filter,
            match filter.updated_after {
                Some(t) => Some(rfc3339_of(t)),
                None => None,
            },
        ),
{
    let updated = match filter.updated_after {
        Some(t) => Some(format_rfc3339(t)),
        None => None,
    };
    let mut sql = ISSUE_LIST_SELECT.to_owned();
    let mut params: Vec<String> = Vec::new();
    let ghost mut expected: Seq<Seq<char>> = Seq::empty();
    let projects = in_clause("p.name", filter.projects.len());
    push_str(&mut sql, projects.as_str());
    let mut i: usize = 0;
    while i < filter.projects.len()
        invariant
            i <= filter.projects.len(),
            params@.map_values(|p: String| p@) == filter.projects@.take(i as int).map_values(
                |p: String| p@,
            ),
        decreases filter.projects.len() - i,
    {
        let ghost before = params@.map_values(|p: String| p@);
        params.push(filter.projects[i].clone());
        assert(params@.map_values(|p: String| p@) =~= before.push(filter.projects@[i as int]@));
        assert(filter.projects@.take(i + 1).map_values(|p: String| p@) =~= filter.projects@.take(
            i as int,
        ).map_values(|p: String| p@).push(filter.projects@[i as int]@));
        i = i + 1;
    }
    assert(filter.projects@.take(i as int) =~= filter.projects@);
    let ghost after_projects = params@.map_values(|p: String| p@);
    if filter.states.len() == 0 {
        if !filter.include_done {
            push_str(&mut sql, " AND i.state NOT IN ('done', 'cancelled')");
        }
    } else {
        let states = in_clause("i.state", filter.states.len());
        push_str(&mut sql, states.as_str());
    }
    let mut j: usize = 0;
    while j < filter.states.len()
        invariant
            j <= filter.states.len(),
            params@.map_values(|p: String| p@) == after_projects + filter.states@.take(j as int).map_values(
                |s: IssueState| issue_state_name(s),
            ),
        decreases filter.states.len() - j,
    {
        let ghost before = params@.map_values(|p: String| p@);
        params.push(filter.states[j].as_str().to_owned());
        assert(params@.map_values(|p: String| p@) =~= before.push(issue_state_name(filter.states@[j as int])));
        assert(filter.states@.take(j + 1).map_values(|s: IssueState| issue_state_name(s)) =~= filter.states@.take(
            j as int,
        ).map_values(|s: IssueState| issue_state_name(s)).push(issue_state_name(filter.states@[j as int])));
        j = j + 1;
    }
    assert(filter.states@.take(j as int) =~= filter.states@);
    let ghost after_states = params@.map_values(|p: String| p@);
    if filter.priorities.len() > 0 {
        let priorities = in_clause("i.priority", filter.priorities.len());
        push_str(&mut sql, priorities.as_str());
    }
    let mut k: usize = 0;
    while k < filter.priorities.len()
        invariant
            k <= filter.priorities.len(),
            params@.map_values(|p: String| p@) == after_states + filter.priorities@.take(k as int).map_values(
                |p: Priority| priority_name(p),
            ),
        decreases filter.priorities.len() - k,
    {
        let ghost before = params@.map_values(|p: String| p@);
        params.push(filter.priorities[k].as_str().to_owned());
        assert(params@.map_values(|p: String| p@) =~= before.push(priority_name(filter.priorities@[k as int])));
        assert(filter.priorities@.take(k + 1).map_values(|p: Priority| priority_name(p)) =~= filter.priorities@.take(
            k as int,
        ).map_values(|p: Priority| priority_name(p)).push(priority_name(filter.priorities@[k as int])));
        k = k + 1;
    }
    assert(filter.priorities@.take(k as int) =~= filter.priorities@);
    let ghost after_priorities = params@.map_values(|p: String| p@);
    if let Some(a) = &filter.assignee {
        push_str(&mut sql, " AND i.assignee_name = ?");
        params.push(a.clone());
        assert(params@.map_values(|p: String| p@) =~= after_priorities.push(a@));
    }
    let ghost after_assignee = params@.map_values(|p: String| p@);
    if let Some(text) = updated {
        push_str(&mut sql, " AND i.updated_at > ?");
        let ghost t = text@;
        params.push(text);
        assert(params@.map_values(|p: String| p@) =~= after_assignee.push(t));
    }
    let ghost after_updated = params@.map_values(|p: String| p@);
    if let Some(q) = &filter.query {
        let escaped = escape_like(q.as_str());
        let mut pattern = concat("%", escaped.as_str());
        push_str(&mut pattern, "%");
        push_str(
            &mut sql,
            " AND (i.title LIKE ? ESCAPE '\\' OR COALESCE(i.body, '') LIKE ? ESCAPE '\\')",
        );
        params.push(pattern.clone());
        params.push(pattern);
        assert(params@.map_values(|p: String| p@) =~= after_updated + seq![
            "%"@ + escape_like_spec(q@) + "%"@,
            "%"@ + escape_like_spec(q@) + "%"@,
        ]);
    }
    push_str(&mut sql, ISSUE_LIST_ORDER);
    proof {
        assert(params@.map_values(|p: String| p@) =~= list_parameters(
            *filter,
            match filter.updated_after {
                Some(t) => Some(rfc3339_of(t)),
                None => None,
            },
        ));
    }
    (sql, params)
}

} // verus!
