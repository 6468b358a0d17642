//! What the program prints: human lines and the JSON error document. The
//! functions here build the text; the program writes it.
use crate::domain::{
    issue_state_name, priority_name, CapabilitySet, DecisionRequest, Issue, IssueDependency,
    IssueListItem, IssueParent, IssueWorktree, Project, RedactionResult, Status,
};
use crate::error::{spec_code, spec_message, AppError};
use crate::json::{int_member, member, object_members, text_member, Json};

use crate::text::{chars_of, concat, concat3, i64_to_decimal, int_decimal, push_char, push_str};
use vstd::prelude::*;

verus! {

/// Whether the program writes human text or JSON.
#[derive(Clone, Copy, Debug, PartialEq, Eq, Structural)]
pub enum OutputMode {
    Human,
    Json,
}

pub open spec fn is_json_flag(a: Option<String>) -> bool {
    match a {
        Some(s) => s@ == "--json"@,
        None => false,
    }
}

impl OutputMode {
    /// JSON when any argument is exactly `--json`; arguments that are not
    /// valid Unicode are `None` and never match.
    pub fn from_arguments(arguments: &Vec<Option<String>>) -> (m: OutputMode)
        ensures
            m == if exists|i: int| 0 <= i < arguments@.len() && is_json_flag(#[trigger] arguments@[i]) {
                OutputMode::Json
            } else {
                OutputMode::Human
            },
    {
        let mut i: usize = 0;
        while i < arguments.len()
            invariant
                i <= arguments.len(),
                forall|j: int| 0 <= j < i ==> !is_json_flag(#[trigger] arguments@[j]),
            decreases arguments.len() - i,
        {
            if let Some(a) = &arguments[i] {
                if crate::text::str_equals(a.as_str(), "--json") {
                    assert(is_json_flag(arguments@[i as int]));
                    return OutputMode::Json;
                }
            }
            i = i + 1;
        }
        OutputMode::Human
    }
}

/// The lowercase hexadecimal digits of `n`, without leading zeros.
pub open spec fn hex_text(n: nat) -> Seq<char>
    decreases n,
{
    if n < 16 {
        seq![hex_char_spec(n)]
    } else {
        hex_text(n / 16).push(hex_char_spec(n % 16))
    }
}

pub open spec fn hex_char_spec(d: nat) -> char {
    if d < 10 {
        (('0' as u32) + d) as char
    } else {
        (('a' as u32) + d - 10) as char
    }
}

/// How `char::escape_default` writes a character: the escapes `\t`, `\r`,
/// `\n`, `\'`, `\"` and `\\`, printable ASCII as itself, and anything else as
/// `\u{..}` with its code in lowercase hexadecimal.
pub open spec fn escape_char(c: char) -> Seq<char> {
    if c == '\t' {
        seq!['\\', 't']
    } else if c == '\r' {
        seq!['\\', 'r']
    } else if c == '\n' {
        seq!['\\', 'n']
    } else if c == '\'' {
        seq!['\\', '\'']
    } else if c == '"' {
        seq!['\\', '"']
    } else if c == '\\' {
        seq!['\\', '\\']
    } else if ' ' <= c && c <= '~' {
        seq![c]
    } else {
        seq!['\\', 'u', '{'] + hex_text(c as nat) + seq!['}']
    }
}

/// The text with every character escaped.
pub open spec fn escaped(s: Seq<char>) -> Seq<char>
    decreases s.len(),
{
    if s.len() == 0 {
        Seq::empty()
    } else {
        escaped(s.drop_last()) + escape_char(s.last())
    }
}

fn hex_digit_char(d: u32) -> (c: char)
    requires
        d < 16,
    ensures
        c == hex_char_spec(d as nat),
{
    if d < 10 {
        ((48 + d) as u8) as char
    } else {
        ((97 + d - 10) as u8) as char
    }
}

fn push_hex(s: &mut String, n: u32)
    ensures
        final(s)@ == old(s)@ + hex_text(n as nat),
    decreases n,
{
    if n < 16 {
        push_char(s, hex_digit_char(n));
    } else {
        push_hex(s, n / 16);
        push_char(s, hex_digit_char(n % 16));
    }
}

fn push_escaped(s: &mut String, c: char)
    ensures
        final(s)@ == old(s)@ + escape_char(c),
{
    if c == '\t' {
        push_str(s, "\\t");
    } else if c == '\r' {
        push_str(s, "\\r");
    } else if c == '\n' {
        push_str(s, "\\n");
    } else if c == '\'' {
        push_str(s, "\\'");
    } else if c == '"' {
        push_str(s, "\\\"");
    } else if c == '\\' {
        push_str(s, "\\\\");
    } else if ' ' <= c && c <= '~' {
        push_char(s, c);
    } else {
        push_str(s, "\\u{");
        push_hex(s, c as u32);
        push_char(s, '}');
    }
    proof {
        reveal_strlit("\\t");
        reveal_strlit("\\r");
        reveal_strlit("\\n");
        reveal_strlit("\\'");
        reveal_strlit("\\\"");
        reveal_strlit("\\\\");
        reveal_strlit("\\u{");
    }
}

/// Escapes the control characters and non-ASCII text of a value before it
/// reaches a terminal, as `char::escape_default` does.
pub fn escape_terminal_controls(value: &str) -> (s: String)
    ensures
        s@ == escaped(value@),
{
    let chars = chars_of(value);
    let mut s = String::new();
    let mut i: usize = 0;
    while i < chars.len()
        invariant
            i <= chars.len(),
            chars@ == value@,
            s@ == escaped(chars@.take(i as int)),
        decreases chars.len() - i,
    {
        push_escaped(&mut s, chars[i]);
        assert(chars@.take(i + 1).drop_last() =~= chars@.take(i as int));
        i = i + 1;
    }
    assert(chars@.take(i as int) =~= chars@);
    s
}

pub open spec fn pow16(k: nat) -> nat
    decreases k,
{
    if k == 0 {
        1
    } else {
        16 * pow16((k - 1) as nat)
    }
}

/// The 32 hexadecimal digits of a 128-bit number, most significant first.
pub open spec fn hex32(id: u128) -> Seq<char> {
    Seq::new(32, |i: int| hex_char_spec(((id as nat / pow16((31 - i) as nat)) % 16) as nat))
}

/// A UUID in its hyphenated lowercase form: 8, 4, 4, 4 and 12 digits.
pub open spec fn uuid_text(id: u128) -> Seq<char> {
    let h = hex32(id);
    h.subrange(0, 8) + seq!['-'] + h.subrange(8, 12) + seq!['-'] + h.subrange(12, 16) + seq!['-']
        + h.subrange(16, 20) + seq!['-'] + h.subrange(20, 32)
}

proof fn lemma_pow16_positive(k: nat)
    ensures
        pow16(k) > 0,
    decreases k,
{
    if k > 0 {
        lemma_pow16_positive((k - 1) as nat);
    }
}

/// Writes a UUID in its hyphenated lowercase form, as the `uuid` crate
/// displays it.
pub fn format_uuid(id: u128) -> (s: String)
    ensures
        s@ == uuid_text(id),
{
    // the digits, least significant first
    let mut low_first: Vec<char> = Vec::new();
    let mut rest = id;
    let mut k: usize = 0;
    assert(pow16(0) == 1);
    assert(id as nat / 1 == id as nat);
    while k < 32
        invariant
            k <= 32,
            low_first@.len() == k,
            rest as nat == id as nat / pow16(k as nat),
            forall|j: int|
                0 <= j < k ==> #[trigger] low_first@[j] == hex_char_spec(
                    ((id as nat / pow16(j as nat)) % 16) as nat,
                ),
        decreases 32 - k,
    {
        let d = (rest % 16) as u32;
        low_first.push(hex_digit_char(d));
        proof {
            lemma_pow16_positive(k as nat);
            vstd::arithmetic::div_mod::lemma_div_denominator(id as int, pow16(k as nat) as int, 16);
            assert(pow16((k + 1) as nat) == 16 * pow16(k as nat));
            assert(pow16(k as nat) * 16 == 16 * pow16(k as nat)) by (nonlinear_arith);
        }
        rest = rest / 16;
        k = k + 1;
    }
    let mut s = String::new();
    let mut i: usize = 0;
    let ghost h = hex32(id);
    while i < 32
        invariant
            i <= 32,
            low_first@.len() == 32,
            h == hex32(id),
            forall|j: int|
                0 <= j < 32 ==> #[trigger] low_first@[j] == hex_char_spec(
                    ((id as nat / pow16(j as nat)) % 16) as nat,
                ),
            s@ == if i <= 8 {
                h.subrange(0, i as int)
            } else if i <= 12 {
                h.subrange(0, 8) + seq!['-'] + h.subrange(8, i as int)
            } else if i <= 16 {
                h.subrange(0, 8) + seq!['-'] + h.subrange(8, 12) + seq!['-'] + h.subrange(12, i as int)
            } else if i <= 20 {
                h.subrange(0, 8) + seq!['-'] + h.subrange(8, 12) + seq!['-'] + h.subrange(12, 16)
                    + seq!['-'] + h.subrange(16, i as int)
            } else {
                h.subrange(0, 8) + seq!['-'] + h.subrange(8, 12) + seq!['-'] + h.subrange(12, 16)
                    + seq!['-'] + h.subrange(16, 20) + seq!['-'] + h.subrange(20, i as int)
            },
        decreases 32 - i,
    {
        if i == 8 || i == 12 || i == 16 || i == 20 {
            push_char(&mut s, '-');
        }
        let c = low_first[31 - i];
        assert(c == h[i as int]);
        push_char(&mut s, c);
        proof {
            if i < 8 {
                assert(h.subrange(0, i + 1) =~= h.subrange(0, i as int).push(h[i as int]));
            } else if i < 12 {
                assert(h.subrange(8, i + 1) =~= h.subrange(8, i as int).push(h[i as int]));
            } else if i < 16 {
                assert(h.subrange(12, i + 1) =~= h.subrange(12, i as int).push(h[i as int]));
            } else if i < 20 {
                assert(h.subrange(16, i + 1) =~= h.subrange(16, i as int).push(h[i as int]));
            } else {
                assert(h.subrange(20, i + 1) =~= h.subrange(20, i as int).push(h[i as int]));
            }
        }
        i = i + 1;
    }
    s
}

/// The texts of printed lines.
pub open spec fn line_texts(v: Seq<String>) -> Seq<Seq<char>> {
    v.map_values(|l: String| l@)
}

/// The human line of an error: its code and its message.
pub fn error_line(error: &AppError) -> (s: String)
    ensures
        s@ == spec_code(*error) + ": "@ + spec_message(*error),
{
    let m = error.message();
    concat3(error.code(), ": ", m.as_str())
}

/// The errors whose JSON document carries details.
pub open spec fn has_error_details(e: AppError) -> bool {
    ||| e is RevisionConflict
    ||| e is UnsupportedDatabaseSchemaVersion
    ||| e is SelfUpdateFailed
    ||| e is AuditIntegrity
    ||| e is AuditOperation
}

/// What an audit error tells its reader to do.
pub open spec fn integrity_recovery() -> Seq<char> {
    "preserve the affected JSONL and run bettr audit rebuild --json"@
}

pub open spec fn operation_recovery() -> Seq<char> {
    "preserve the affected JSONL and retry, or run bettr audit rebuild --json"@
}

/// The details of an error's JSON document: the revision that a conflict
/// found, the versions of an unsupported schema, the self-update report as
/// it is, and for audit errors where the problem is and how to recover.
pub open spec fn error_details_spec(e: AppError, d: Json) -> bool {
    let m = object_members(d);
    match e {
        AppError::RevisionConflict { current_revision } => d is Object && m.len() == 1 && int_member(
            m[0],
            "current_revision"@,
            current_revision as int,
        ),
        AppError::UnsupportedDatabaseSchemaVersion { found_version, current_version } => d is Object
            && m.len() == 2 && int_member(m[0], "found_version"@, found_version as int)
            && int_member(m[1], "current_version"@, current_version as int),
        AppError::SelfUpdateFailed(report) => d matches Json::Raw(r) && r@ == report@,
        AppError::AuditIntegrity { line, sequence, .. } => d is Object && m.len() == 3 && m[0].0@
            == "line"@ && (match line {
            Some(l) => if l <= i64::MAX {
                m[0].1 matches Json::Int(i) && i == l
            } else {
                m[0].1 is Null
            },
            None => m[0].1 is Null,
        }) && m[1].0@ == "sequence"@ && (match sequence {
            Some(s) => m[1].1 matches Json::Int(i) && i == s,
            None => m[1].1 is Null,
        }) && text_member(m[2], "recovery"@, Some(integrity_recovery())),
        AppError::AuditOperation { operation } => d is Object && m.len() == 2 && text_member(
            m[0],
            "operation"@,
            Some(operation@),
        ) && text_member(m[1], "recovery"@, Some(operation_recovery())),
        _ => false,
    }
}

/// The JSON document of an error: schema version 1, the error's code and
/// message, and for some errors details that a program can act on.
pub fn error_document(error: &AppError) -> (j: Json)
    ensures
        j is Object,
        object_members(j).len() == 2,
        int_member(object_members(j)[0], "schema_version"@, 1),
        object_members(j)[1].0@ == "error"@,
        ({
            let body = object_members(j)[1].1;
            let b = object_members(body);
            &&& body is Object
            &&& text_member(b[0], "code"@, Some(spec_code(*error)))
            &&& text_member(b[1], "message"@, Some(spec_message(*error)))
            &&& has_error_details(*error) ==> b.len() == 3 && b[2].0@ == "details"@
                && error_details_spec(*error, b[2].1)
            &&& !has_error_details(*error) ==> b.len() == 2
        }),
{
    let mut body: Vec<(String, Json)> = Vec::new();
    body.push(member("code", Json::Str(error.code().to_owned())));
    body.push(member("message", Json::Str(error.message())));
    let details: Option<Json> = match error {
        AppError::RevisionConflict { current_revision } => {
            let mut d: Vec<(String, Json)> = Vec::new();
            d.push(member("current_revision", Json::Int(*current_revision)));
            Some(Json::Object(d))
        },
        AppError::UnsupportedDatabaseSchemaVersion { found_version, current_version } => {
            let mut d: Vec<(String, Json)> = Vec::new();
            d.push(member("found_version", Json::Int(*found_version as i64)));
            d.push(member("current_version", Json::Int(*current_version as i64)));
            Some(Json::Object(d))
        },
        AppError::SelfUpdateFailed(report) => Some(Json::Raw(report.clone())),
        AppError::AuditIntegrity { line, sequence, .. } => {
            let mut d: Vec<(String, Json)> = Vec::new();
            let line_value = match line {
                Some(l) => if (*l as u64) <= 9223372036854775807u64 {
                    Json::Int(*l as i64)
                } else {
                    Json::Null
                },
                None => Json::Null,
            };
            d.push(member("line", line_value));
            let sequence_value = match sequence {
                Some(s) => Json::Int(*s),
                None => Json::Null,
            };
            d.push(member("sequence", sequence_value));
            d.push(
                member(
                    "recovery",
                    Json::Str(
                        "preserve the affected JSONL and run bettr audit rebuild --json".to_owned(),
                    ),
                ),
            );
            Some(Json::Object(d))
        },
        AppError::AuditOperation { operation } => {
            let mut d: Vec<(String, Json)> = Vec::new();
            d.push(member("operation", Json::Str((*operation).to_owned())));
            d.push(
                member(
                    "recovery",
                    Json::Str(
                        "preserve the affected JSONL and retry, or run bettr audit rebuild --json".to_owned(),
                    ),
                ),
            );
            Some(Json::Object(d))
        },
        _ => None,
    };
    if let Some(d) = details {
        body.push(member("details", d));
    }
    let mut doc: Vec<(String, Json)> = Vec::new();
    doc.push(member("schema_version", Json::Int(1)));
    doc.push(member("error", Json::Object(body)));
    Json::Object(doc)
}

/// An optional text escaped for the terminal, or `none`.
pub open spec fn escaped_or_none(o: Option<String>) -> Seq<char> {
    match o {
        Some(t) => escaped(t@),
        None => "none"@,
    }
}

fn escape_or(o: &Option<String>, fallback: &str) -> (s: String)
    ensures
        s@ == match *o {
            Some(t) => escaped(t@),
            None => fallback@,
        },
{
    match o {
        Some(t) => escape_terminal_controls(t.as_str()),
        None => fallback.to_owned(),
    }
}

/// The lines that describe an Issue of `project`.
pub open spec fn issue_lines_spec(project: Seq<char>, issue: Issue) -> Seq<Seq<char>> {
    seq![
        escaped(project) + "#"@ + int_decimal(issue.number as int),
        "state: "@ + issue_state_name(issue.state),
        "title: "@ + escaped(issue.title@),
        "revision: "@ + int_decimal(issue.revision as int),
        "priority: "@ + match issue.priority {
            Some(p) => priority_name(p),
            None => "none"@,
        },
        "assignee: "@ + escaped_or_none(issue.assignee_name),
        "body:"@,
        escaped_or_none(issue.body),
    ]
}

/// The human text of an Issue.
pub fn issue_lines(project: &str, issue: &Issue) -> (v: Vec<String>)
    ensures
        line_texts(v@) == issue_lines_spec(project@, *issue),
{
    let mut v: Vec<String> = Vec::new();
    let p = escape_terminal_controls(project);
    let n = i64_to_decimal(issue.number);
    v.push(concat3(p.as_str(), "#", n.as_str()));
    v.push(concat("state: ", issue.state.as_str()));
    let t = escape_terminal_controls(issue.title.as_str());
    v.push(concat("title: ", t.as_str()));
    let r = i64_to_decimal(issue.revision);
    v.push(concat("revision: ", r.as_str()));
    let priority = match issue.priority {
        Some(p) => p.as_str(),
        None => "none",
    };
    v.push(concat("priority: ", priority));
    let a = escape_or(&issue.assignee_name, "none");
    v.push(concat("assignee: ", a.as_str()));
    v.push("body:".to_owned());
    v.push(escape_or(&issue.body, "none"));
    assert(line_texts(v@) =~= issue_lines_spec(project@, *issue));
    v
}

/// The branches of an Issue's worktrees, `detached` for a worktree without one.
pub open spec fn branch_names(worktrees: Seq<IssueWorktree>) -> Seq<Seq<char>> {
    worktrees.map_values(|w: IssueWorktree| match w.branch {
        Some(b) => b@,
        None => "detached"@,
    })
}

/// Names joined with commas.
pub open spec fn comma_joined(names: Seq<Seq<char>>) -> Seq<char>
    decreases names.len(),
{
    if names.len() == 0 {
        Seq::empty()
    } else if names.len() == 1 {
        names[0]
    } else {
        comma_joined(names.drop_last()) + ","@ + names.last()
    }
}

/// The one-line summary of an Issue in a listing.
pub open spec fn summary_line_spec(item: IssueListItem) -> Seq<char> {
    escaped(item.project@) + "#"@ + int_decimal(item.issue.number as int) + " ["@
        + issue_state_name(item.issue.state) + "] "@ + escaped(item.issue.title@) + if item.worktrees@.len()
        == 0 {
        Seq::empty()
    } else {
        " worktrees="@ + escaped(comma_joined(branch_names(item.worktrees@)))
    }
}

proof fn lemma_escaped_append(a: Seq<char>, b: Seq<char>)
    ensures
        escaped(a + b) == escaped(a) + escaped(b),
    decreases b.len(),
{
    if b.len() == 0 {
        assert(a + b =~= a);
    } else {
        lemma_escaped_append(a, b.drop_last());
        assert((a + b).drop_last() =~= a + b.drop_last());
    }
}

/// The summary line of an Issue in a listing, with the branches of its
/// worktrees.
pub fn issue_summary_line(item: &IssueListItem) -> (s: String)
    ensures
        s@ == summary_line_spec(*item),
{
    let p = escape_terminal_controls(item.project.as_str());
    let n = i64_to_decimal(item.issue.number);
    let mut s = concat3(p.as_str(), "#", n.as_str());
    push_str(&mut s, " [");
    push_str(&mut s, item.issue.state.as_str());
    push_str(&mut s, "] ");
    let t = escape_terminal_controls(item.issue.title.as_str());
    push_str(&mut s, t.as_str());
    if item.worktrees.len() > 0 {
        let mut joined = String::new();
        let mut i: usize = 0;
        while i < item.worktrees.len()
            invariant
                i <= item.worktrees.len(),
                joined@ == comma_joined(branch_names(item.worktrees@).take(i as int)),
            decreases item.worktrees.len() - i,
        {
            let ghost names = branch_names(item.worktrees@);
            if i > 0 {
                push_str(&mut joined, ",");
            }
            let branch = match &item.worktrees[i].branch {
                Some(b) => b.as_str(),
                None => "detached",
            };
            push_str(&mut joined, branch);
            proof {
                assert(names[i as int] == branch@);
                assert(names.take(i + 1).drop_last() =~= names.take(i as int));
                if i == 0 {
                    assert(names.take(1) =~= seq![names[0]]);
                }
            }
            i = i + 1;
        }
        assert(branch_names(item.worktrees@).take(i as int) =~= branch_names(item.worktrees@));
        push_str(&mut s, " worktrees=");
        let e = escape_terminal_controls(joined.as_str());
        push_str(&mut s, e.as_str());
    }
    s
}

/// The lines of a section of the status view: its name and an indented
/// summary of each Issue; an empty section prints nothing.
pub open spec fn status_section_spec(name: Seq<char>, items: Seq<IssueListItem>) -> Seq<Seq<char>> {
    if items.len() == 0 {
        Seq::empty()
    } else {
        seq![name + ":"@] + items.map_values(|it: IssueListItem| "  "@ + summary_line_spec(it))
    }
}

fn push_status_section(lines: &mut Vec<String>, name: &str, items: &Vec<IssueListItem>)
    ensures
        line_texts(final(lines)@) == line_texts(old(lines)@) + status_section_spec(name@, items@),
{
    if items.len() == 0 {
        assert(line_texts(lines@) + status_section_spec(name@, items@) =~= line_texts(lines@));
        return;
    }
    let ghost start = line_texts(lines@);
    lines.push(concat(name, ":"));
    assert(line_texts(lines@) =~= start.push(name@ + ":"@));
    assert(items@.take(0).map_values(|it: IssueListItem| "  "@ + summary_line_spec(it)) =~= Seq::<Seq<char>>::empty());
    let mut i: usize = 0;
    while i < items.len()
        invariant
            i <= items.len(),
            line_texts(lines@) == start + seq![name@ + ":"@] + items@.take(i as int).map_values(
                |it: IssueListItem| "  "@ + summary_line_spec(it),
            ),
        decreases items.len() - i,
    {
        let summary = issue_summary_line(&items[i]);
        let ghost before = line_texts(lines@);
        lines.push(concat("  ", summary.as_str()));
        proof {
            assert(line_texts(lines@) =~= before.push("  "@ + summary_line_spec(items@[i as int])));
            assert(items@.take(i + 1).map_values(|it: IssueListItem| "  "@ + summary_line_spec(it))
                =~= items@.take(i as int).map_values(|it: IssueListItem| "  "@ + summary_line_spec(it)).push(
                "  "@ + summary_line_spec(items@[i as int]),
            ));
            assert(line_texts(lines@) =~= start + seq![name@ + ":"@] + items@.take(i + 1).map_values(
                |it: IssueListItem| "  "@ + summary_line_spec(it),
            ));
        }
        i = i + 1;
    }
    assert(items@.take(i as int) =~= items@);
    assert(line_texts(lines@) =~= start + status_section_spec(name@, items@));
}

/// The human text of the status view.
pub fn write_status_human(status: &Status) -> (v: Vec<String>)
    ensures
        line_texts(v@) == status_section_spec("attention"@, status.attention@) + status_section_spec(
            "stale"@,
            status.stale@,
        ) + status_section_spec("blocked"@, status.blocked@) + status_section_spec(
            "recently completed"@,
            status.recently_completed@,
        ) + status_section_spec("active"@, status.active@),
{
    let mut v: Vec<String> = Vec::new();
    assert(line_texts(v@) =~= Seq::<Seq<char>>::empty());
    push_status_section(&mut v, "attention", &status.attention);
    push_status_section(&mut v, "stale", &status.stale);
    push_status_section(&mut v, "blocked", &status.blocked);
    push_status_section(&mut v, "recently completed", &status.recently_completed);
    push_status_section(&mut v, "active", &status.active);
    v
}

/// The line of a `blocks` relation: blocker, relation, blocked.
pub open spec fn dependency_text(relation: IssueDependency) -> Seq<char> {
    escaped(relation.blocker@) + " "@ + relation.relation@ + " "@ + escaped(relation.blocked@)
}

/// The line of a `blocks` relation.
pub fn dependency_line(relation: &IssueDependency) -> (s: String)
    ensures
        s@ == dependency_text(*relation),
{
    let a = escape_terminal_controls(relation.blocker.as_str());
    let b = escape_terminal_controls(relation.blocked.as_str());
    let mut s = concat3(a.as_str(), " ", relation.relation.as_str());
    push_str(&mut s, " ");
    push_str(&mut s, b.as_str());
    s
}

/// The line of a parent relation: child, `parent`, parent.
pub open spec fn parent_text(relation: IssueParent) -> Seq<char> {
    escaped(relation.child@) + " parent "@ + escaped(relation.parent@)
}

/// The line of a parent relation.
pub fn parent_line(relation: &IssueParent) -> (s: String)
    ensures
        s@ == parent_text(*relation),
{
    let a = escape_terminal_controls(relation.child.as_str());
    let b = escape_terminal_controls(relation.parent.as_str());
    concat3(a.as_str(), " parent ", b.as_str())
}

/// The line of an Issue's worktree: the Issue, whether it is active, its
/// branch (`detached` without one) and its path.
pub open spec fn worktree_text(worktree: IssueWorktree) -> Seq<char> {
    escaped(worktree.issue@) + " "@ + (if worktree.active {
        "active"@
    } else {
        "inactive"@
    }) + " branch="@ + escaped(
        match worktree.branch {
            Some(b) => b@,
            None => "detached"@,
        },
    ) + " path="@ + escaped(worktree.path@)
}

/// The line of an Issue's worktree.
pub fn worktree_line(worktree: &IssueWorktree) -> (s: String)
    ensures
        s@ == worktree_text(*worktree),
{
    let issue = escape_terminal_controls(worktree.issue.as_str());
    let state = if worktree.active {
        "active"
    } else {
        "inactive"
    };
    let branch = match &worktree.branch {
        Some(b) => b.as_str(),
        None => "detached",
    };
    let b = escape_terminal_controls(branch);
    let p = escape_terminal_controls(worktree.path.as_str());
    let mut s = concat3(issue.as_str(), " ", state);
    push_str(&mut s, " branch=");
    push_str(&mut s, b.as_str());
    push_str(&mut s, " path=");
    push_str(&mut s, p.as_str());
    s
}

/// The line of a project: its id and its name.
pub open spec fn project_text(project: Project) -> Seq<char> {
    uuid_text(project.id) + " "@ + escaped(project.name@)
}

/// The line of a project.
pub fn project_line(project: &Project) -> (s: String)
    ensures
        s@ == project_text(*project),
{
    let id = format_uuid(project.id);
    let name = escape_terminal_controls(project.name.as_str());
    concat3(id.as_str(), " ", name.as_str())
}

/// The line that reports a redaction: what was redacted and how many
/// records changed.
pub open spec fn redaction_text(result: RedactionResult) -> Seq<char> {
    "redacted "@ + escaped(result.target_type@) + " "@ + uuid_text(result.target_id) + " ("@
        + crate::text::nat_decimal(result.changed_count as nat) + " records)"@
}

/// The line of a redaction.
pub fn write_redaction_human(result: &RedactionResult) -> (s: String)
    ensures
        s@ == redaction_text(*result),
{
    let kind = escape_terminal_controls(result.target_type.as_str());
    let id = format_uuid(result.target_id);
    let count = crate::text::u64_to_decimal(result.changed_count as u64);
    let mut s = concat3("redacted ", kind.as_str(), " ");
    push_str(&mut s, id.as_str());
    push_str(&mut s, " (");
    push_str(&mut s, count.as_str());
    push_str(&mut s, " records)");
    s
}

/// The lines of the capabilities of this build.
pub fn write_capabilities_human(capabilities: &CapabilitySet) -> (v: Vec<String>)
    ensures
        line_texts(v@).len() == 2 + capabilities.capabilities@.len(),
        line_texts(v@)[0] == "json_contract_version: "@ + int_decimal(
            capabilities.json_contract_version as int,
        ),
        line_texts(v@)[1] == "cli_version: "@ + capabilities.cli_version@,
        forall|i: int|
            0 <= i < capabilities.capabilities@.len() ==> line_texts(v@)[2 + i]
                == (#[trigger] capabilities.capabilities@[i]).0@ + ": "@ + if capabilities.capabilities@[i].1 {
                "true"@
            } else {
                "false"@
            },
{
    let mut v: Vec<String> = Vec::new();
    let n = i64_to_decimal(capabilities.json_contract_version as i64);
    v.push(concat("json_contract_version: ", n.as_str()));
    v.push(concat("cli_version: ", capabilities.cli_version));
    let mut i: usize = 0;
    while i < capabilities.capabilities.len()
        invariant
            i <= capabilities.capabilities.len(),
            v@.len() == 2 + i,
            line_texts(v@)[0] == "json_contract_version: "@ + int_decimal(
                capabilities.json_contract_version as int,
            ),
            line_texts(v@)[1] == "cli_version: "@ + capabilities.cli_version@,
            forall|j: int|
                0 <= j < i ==> line_texts(v@)[2 + j] == (#[trigger] capabilities.capabilities@[j]).0@
                    + ": "@ + if capabilities.capabilities@[j].1 {
                    "true"@
                } else {
                    "false"@
                },
        decreases capabilities.capabilities.len() - i,
    {
        let (name, available) = capabilities.capabilities[i];
        let value = if available {
            "true"
        } else {
            "false"
        };
        v.push(concat3(name, ": ", value));
        i = i + 1;
    }
    v
}

/// The lines of a list of projects, one per project.
pub fn write_projects_human(projects: &Vec<Project>) -> (v: Vec<String>)
    ensures
        v@.len() == projects@.len(),
        forall|i: int| 0 <= i < v@.len() ==> (#[trigger] v@[i])@ == project_text(projects@[i]),
{
    let mut v: Vec<String> = Vec::new();
    let mut i: usize = 0;
    while i < projects.len()
        invariant
            i <= projects.len(),
            v@.len() == i,
            forall|j: int| 0 <= j < i ==> (#[trigger] v@[j])@ == project_text(projects@[j]),
        decreases projects.len() - i,
    {
        v.push(project_line(&projects[i]));
        i = i + 1;
    }
    v
}

/// The lines of an Issue listing, one summary per Issue.
pub fn write_issue_list_human(issues: &Vec<IssueListItem>) -> (v: Vec<String>)
    ensures
        v@.len() == issues@.len(),
        forall|i: int| 0 <= i < v@.len() ==> (#[trigger] v@[i])@ == summary_line_spec(issues@[i]),
{
    let mut v: Vec<String> = Vec::new();
    let mut i: usize = 0;
    while i < issues.len()
        invariant
            i <= issues.len(),
            v@.len() == i,
            forall|j: int| 0 <= j < i ==> (#[trigger] v@[j])@ == summary_line_spec(issues@[j]),
        decreases issues.len() - i,
    {
        v.push(issue_summary_line(&issues[i]));
        i = i + 1;
    }
    v
}

/// The lines of a list of `blocks` relations, one per relation.
pub fn write_issue_dependencies_human(relations: &Vec<IssueDependency>) -> (v: Vec<String>)
    ensures
        v@.len() == relations@.len(),
        forall|i: int| 0 <= i < v@.len() ==> (#[trigger] v@[i])@ == dependency_text(relations@[i]),
{
    let mut v: Vec<String> = Vec::new();
    let mut i: usize = 0;
    while i < relations.len()
        invariant
            i <= relations.len(),
            v@.len() == i,
            forall|j: int| 0 <= j < i ==> (#[trigger] v@[j])@ == dependency_text(relations@[j]),
        decreases relations.len() - i,
    {
        v.push(dependency_line(&relations[i]));
        i = i + 1;
    }
    v
}

/// The lines of a list of worktrees, one per worktree.
pub fn write_issue_worktrees_human(worktrees: &Vec<IssueWorktree>) -> (v: Vec<String>)
    ensures
        v@.len() == worktrees@.len(),
        forall|i: int| 0 <= i < v@.len() ==> (#[trigger] v@[i])@ == worktree_text(worktrees@[i]),
{
    let mut v: Vec<String> = Vec::new();
    let mut i: usize = 0;
    while i < worktrees.len()
        invariant
            i <= worktrees.len(),
            v@.len() == i,
            forall|j: int| 0 <= j < i ==> (#[trigger] v@[j])@ == worktree_text(worktrees@[j]),
        decreases worktrees.len() - i,
    {
        v.push(worktree_line(&worktrees[i]));
        i = i + 1;
    }
    v
}

/// The lines of a list of parent relations, one per relation.
pub fn write_issue_parents_human(relations: &Vec<IssueParent>) -> (v: Vec<String>)
    ensures
        v@.len() == relations@.len(),
        forall|i: int| 0 <= i < v@.len() ==> (#[trigger] v@[i])@ == parent_text(relations@[i]),
{
    let mut v: Vec<String> = Vec::new();
    let mut i: usize = 0;
    while i < relations.len()
        invariant
            i <= relations.len(),
            v@.len() == i,
            forall|j: int| 0 <= j < i ==> (#[trigger] v@[j])@ == parent_text(relations@[j]),
        decreases relations.len() - i,
    {
        v.push(parent_line(&relations[i]));
        i = i + 1;
    }
    v
}

} // verus!
