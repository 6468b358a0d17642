//! The command line's plain values: the edit flags that become a patch, and
//! the operation that a command line names for auditing a parse failure.
use crate::domain::{AssigneeKind, IssuePatch, Priority};
use crate::text::{chars_of, str_equals, string_from_chars};
use vstd::prelude::*;

verus! {

/// The Issue that a state change or edit names, at the revision it expects.
#[derive(Clone, Copy, Debug)]
pub struct IssueTransitionTarget {
    pub number: i64,
    pub revision: i64,
}

/// The flags of `issue edit`.
#[derive(Clone, Debug)]
pub struct IssueEditCommand {
    pub target: IssueTransitionTarget,
    pub title: Option<String>,
    pub body: Option<String>,
    pub clear_body: bool,
    pub priority: Option<Priority>,
    pub clear_priority: bool,
    pub assignee_kind: Option<AssigneeKind>,
    pub assignee_name: Option<String>,
    pub clear_assignee: bool,
}

impl IssueEditCommand {
    /// The edit that the flags ask for: a `--clear-*` flag clears its field,
    /// a value sets it, and a field without either is kept.
    pub fn into_patch(self) -> (p: IssuePatch)
        ensures
            p.title == self.title,
            p.body == if self.clear_body {
                Some(None::<String>)
            } else {
                match self.body {
                    Some(b) => Some(Some(b)),
                    None => None,
                }
            },
            p.priority == if self.clear_priority {
                Some(None::<Priority>)
            } else {
                match self.priority {
                    Some(x) => Some(Some(x)),
                    None => None,
                }
            },
            p.assignee_kind == if self.clear_assignee {
                Some(None::<AssigneeKind>)
            } else {
                match self.assignee_kind {
                    Some(x) => Some(Some(x)),
                    None => None,
                }
            },
            p.assignee_name == if self.clear_assignee {
                Some(None::<String>)
            } else {
                match self.assignee_name {
                    Some(x) => Some(Some(x)),
                    None => None,
                }
            },
    {
        IssuePatch {
            title: self.title,
            body: if self.clear_body {
                Some(None)
            } else {
                match self.body {
                    Some(b) => Some(Some(b)),
                    None => None,
                }
            },
            priority: if self.clear_priority {
                Some(None)
            } else {
                match self.priority {
                    Some(x) => Some(Some(x)),
                    None => None,
                }
            },
            assignee_kind: if self.clear_assignee {
                Some(None)
            } else {
                match self.assignee_kind {
                    Some(x) => Some(Some(x)),
                    None => None,
                }
            },
            assignee_name: if self.clear_assignee {
                Some(None)
            } else {
                match self.assignee_name {
                    Some(x) => Some(Some(x)),
                    None => None,
                }
            },
        }
    }
}

/// The audited operation that a command line names by its first two words.
pub open spec fn spec_audit_operation(root: Seq<char>, sub: Option<Seq<char>>) -> Option<Seq<char>> {
    if root == "init"@ {
        Some("init"@)
    } else if root == "project"@ && sub == Some("create"@) {
        Some("project_create"@)
    } else if root == "project"@ && sub == Some("list"@) {
        Some("project_list"@)
    } else if root == "project"@ {
        Some("project"@)
    } else if root == "issue"@ && sub == Some("create"@) {
        Some("issue_create"@)
    } else if root == "issue"@ && sub == Some("batch"@) {
        Some("issue_batch"@)
    } else if root == "issue"@ && sub == Some("show"@) {
        Some("issue_show"@)
    } else if root == "issue"@ && sub == Some("list"@) {
        Some("issue_list"@)
    } else if root == "issue"@ && sub == Some("edit"@) {
        Some("issue_edit"@)
    } else if root == "issue"@ && sub == Some("comment"@) {
        Some("issue_comment"@)
    } else if root == "issue"@ && sub == Some("history"@) {
        Some("issue_history"@)
    } else if root == "issue"@ && sub == Some("dependency"@) {
        Some("issue_dependency"@)
    } else if root == "issue"@ && sub == Some("parent"@) {
        Some("issue_parent"@)
    } else if root == "issue"@ && sub == Some("claim"@) {
        Some("issue_claim"@)
    } else if root == "issue"@ && sub == Some("heartbeat"@) {
        Some("issue_heartbeat"@)
    } else if root == "issue"@ && sub == Some("takeover"@) {
        Some("issue_takeover"@)
    } else if root == "decision"@ && sub == Some("request"@) {
        Some("decision_request"@)
    } else if root == "decision"@ && sub == Some("resolve"@) {
        Some("decision_resolve"@)
    } else if root == "event"@ && sub == Some("list"@) {
        Some("event_list"@)
    } else if root == "capabilities"@ {
        Some("capabilities"@)
    } else if root == "issue"@ && sub == Some("start"@) {
        Some("issue_start"@)
    } else if root == "issue"@ && sub == Some("block"@) {
        Some("issue_block"@)
    } else if root == "issue"@ && sub == Some("resume"@) {
        Some("issue_resume"@)
    } else if root == "issue"@ && sub == Some("complete"@) {
        Some("issue_complete"@)
    } else if root == "issue"@ && sub == Some("cancel"@) {
        Some("issue_cancel"@)
    } else if root == "issue"@ && sub == Some("reopen"@) {
        Some("issue_reopen"@)
    } else if root == "issue"@ {
        Some("issue"@)
    } else if root == "status"@ {
        Some("status"@)
    } else if root == "audit"@ && sub == Some("list"@) {
        Some("audit_list"@)
    } else if root == "audit"@ {
        Some("audit"@)
    } else if root == "context"@ {
        Some("context"@)
    } else if root == "web"@ {
        Some("web"@)
    } else {
        None
    }
}

fn sub_is(sub: Option<&str>, name: &str) -> (b: bool)
    ensures
        b == (match sub {
            Some(s) => Some(s@),
            None => None,
        } == Some(name@)),
{
    match sub {
        Some(s) => str_equals(s, name),
        None => false,
    }
}

/// The audited operation of a command's first two words.
pub fn audit_operation(root: &str, sub: Option<&str>) -> (r: Option<&'static str>)
    ensures
        match r {
            Some(o) => spec_audit_operation(root@, match sub {
                Some(s) => Some(s@),
                None => None,
            }) == Some(o@),
            None => spec_audit_operation(root@, match sub {
                Some(s) => Some(s@),
                None => None,
            }) is None,
        },
{
    if str_equals(root, "init") {
        Some("init")
    } else if str_equals(root, "project") && sub_is(sub, "create") {
        Some("project_create")
    } else if str_equals(root, "project") && sub_is(sub, "list") {
        Some("project_list")
    } else if str_equals(root, "project") {
        Some("project")
    } else if str_equals(root, "issue") && sub_is(sub, "create") {
        Some("issue_create")
    } else if str_equals(root, "issue") && sub_is(sub, "batch") {
        Some("issue_batch")
    } else if str_equals(root, "issue") && sub_is(sub, "show") {
        Some("issue_show")
    } else if str_equals(root, "issue") && sub_is(sub, "list") {
        Some("issue_list")
    } else if str_equals(root, "issue") && sub_is(sub, "edit") {
        Some("issue_edit")
    } else if str_equals(root, "issue") && sub_is(sub, "comment") {
        Some("issue_comment")
    } else if str_equals(root, "issue") && sub_is(sub, "history") {
        Some("issue_history")
    } else if str_equals(root, "issue") && sub_is(sub, "dependency") {
        Some("issue_dependency")
    } else if str_equals(root, "issue") && sub_is(sub, "parent") {
        Some("issue_parent")
    } else if str_equals(root, "issue") && sub_is(sub, "claim") {
        Some("issue_claim")
    } else if str_equals(root, "issue") && sub_is(sub, "heartbeat") {
        Some("issue_heartbeat")
    } else if str_equals(root, "issue") && sub_is(sub, "takeover") {
        Some("issue_takeover")
    } else if str_equals(root, "decision") && sub_is(sub, "request") {
        Some("decision_request")
    } else if str_equals(root, "decision") && sub_is(sub, "resolve") {
        Some("decision_resolve")
    } else if str_equals(root, "event") && sub_is(sub, "list") {
        Some("event_list")
    } else if str_equals(root, "capabilities") {
        Some("capabilities")
    } else if str_equals(root, "issue") && sub_is(sub, "start") {
        Some("issue_start")
    } else if str_equals(root, "issue") && sub_is(sub, "block") {
        Some("issue_block")
    } else if str_equals(root, "issue") && sub_is(sub, "resume") {
        Some("issue_resume")
    } else if str_equals(root, "issue") && sub_is(sub, "complete") {
        Some("issue_complete")
    } else if str_equals(root, "issue") && sub_is(sub, "cancel") {
        Some("issue_cancel")
    } else if str_equals(root, "issue") && sub_is(sub, "reopen") {
        Some("issue_reopen")
    } else if str_equals(root, "issue") {
        Some("issue")
    } else if str_equals(root, "status") {
        Some("status")
    } else if str_equals(root, "audit") && sub_is(sub, "list") {
        Some("audit_list")
    } else if str_equals(root, "audit") {
        Some("audit")
    } else if str_equals(root, "context") {
        Some("context")
    } else if str_equals(root, "web") {
        Some("web")
    } else {
        None
    }
}

/// A database path given on the command line: its text, or, for a path that
/// is not valid Unicode, the position of the argument that holds it.
#[derive(Clone, Debug)]
pub enum PathArgument {
    Text(String),
    Raw(usize),
}

/// What a command line names, for auditing a failure to parse it.
#[derive(Debug)]
pub struct AuditInvocation {
    pub operation: &'static str,
    pub database: Option<PathArgument>,
    pub project: Option<String>,
}

/// The view of a database argument.
pub enum PathView {
    Text(Seq<char>),
    Raw(int),
}

pub open spec fn path_view(p: Option<PathArgument>) -> Option<PathView> {
    match p {
        Some(PathArgument::Text(t)) => Some(PathView::Text(t@)),
        Some(PathArgument::Raw(i)) => Some(PathView::Raw(i as int)),
        None => None,
    }
}

pub open spec fn starts_with(s: Seq<char>, prefix: Seq<char>) -> bool {
    prefix.len() <= s.len() && s.take(prefix.len() as int) == prefix
}

/// The argument after `index`, as a database path.
pub open spec fn database_after(args: Seq<Option<String>>, index: int) -> Option<PathView> {
    if index + 1 < args.len() {
        match args[index + 1] {
            Some(t) => Some(PathView::Text(t@)),
            None => Some(PathView::Raw(index + 1)),
        }
    } else {
        None
    }
}

/// The argument after `index`, as a project name.
pub open spec fn project_after(args: Seq<Option<String>>, index: int) -> Option<Seq<char>> {
    if index + 1 < args.len() {
        match args[index + 1] {
            Some(t) => Some(t@),
            None => None,
        }
    } else {
        None
    }
}

/// Reads the arguments from `index` on: the last `--database` and
/// `--project` given, and the words that are not options. Arguments that are
/// not valid Unicode are skipped, and `--idempotency-key` skips its value.
pub open spec fn scan(
    args: Seq<Option<String>>,
    index: int,
    database: Option<PathView>,
    project: Option<Seq<char>>,
    words: Seq<Seq<char>>,
) -> (Option<PathView>, Option<Seq<char>>, Seq<Seq<char>>)
    decreases args.len() + 2 - index,
{
    if index < 0 || index >= args.len() {
        (database, project, words)
    } else {
        match args[index] {
            None => scan(args, index + 1, database, project, words),
            Some(s) => {
                let a = s@;
                if a == "--database"@ {
                    scan(args, index + 2, database_after(args, index), project, words)
                } else if a == "--project"@ {
                    scan(args, index + 2, database, project_after(args, index), words)
                } else if a == "--idempotency-key"@ {
                    scan(args, index + 2, database, project, words)
                } else if starts_with(a, "--database="@) {
                    scan(args, index + 1, Some(PathView::Text(a.skip(11))), project, words)
                } else if starts_with(a, "--project="@) {
                    scan(args, index + 1, database, Some(a.skip(10)), words)
                } else if starts_with(a, "-"@) {
                    scan(args, index + 1, database, project, words)
                } else {
                    scan(args, index + 1, database, project, words.push(a))
                }
            },
        }
    }
}

fn has_prefix(s: &Vec<char>, prefix: &str) -> (b: bool)
    ensures
        b == starts_with(s@, prefix@),
{
    let p = chars_of(prefix);
    if p.len() > s.len() {
        return false;
    }
    let mut i: usize = 0;
    while i < p.len()
        invariant
            p.len() <= s.len(),
            i <= p.len(),
            p@ == prefix@,
            forall|j: int| 0 <= j < i ==> s@[j] == p@[j],
        decreases p.len() - i,
    {
        if s[i] != p[i] {
            assert(s@.take(p@.len() as int)[i as int] != p@[i as int]);
            return false;
        }
        i = i + 1;
    }
    assert(s@.take(p@.len() as int) =~= p@);
    true
}

fn skip_chars(v: &Vec<char>, n: usize) -> (s: String)
    requires
        n <= v.len(),
    ensures
        s@ == v@.skip(n as int),
{
    let mut rest: Vec<char> = Vec::new();
    let mut i = n;
    while i < v.len()
        invariant
            n <= i <= v.len(),
            rest@ == v@.subrange(n as int, i as int),
        decreases v.len() - i,
    {
        rest.push(v[i]);
        i = i + 1;
        assert(rest@ =~= v@.subrange(n as int, i as int));
    }
    assert(v@.subrange(n as int, v.len() as int) =~= v@.skip(n as int));
    string_from_chars(&rest)
}

impl AuditInvocation {
    /// Reads the operation, database and project that a command line names,
    /// without parsing it fully: the first two words pick the operation and
    /// the program name is skipped. A command line without a known
    /// operation names none.
    pub fn from_arguments(arguments: &Vec<Option<String>>) -> (r: Option<AuditInvocation>)
        requires
            arguments.len() < usize::MAX - 1,
        ensures
            ({
                let (database, project, words) = scan(arguments@, 1, None, None, Seq::empty());
                match r {
                    None => words.len() == 0 || spec_audit_operation(
                        words[0],
                        if words.len() > 1 {
                            Some(words[1])
                        } else {
                            None
                        },
                    ) is None,
                    Some(inv) => words.len() > 0 && spec_audit_operation(
                        words[0],
                        if words.len() > 1 {
                            Some(words[1])
                        } else {
                            None
                        },
                    ) == Some(inv.operation@) && path_view(inv.database) == database && match inv.project {
                        Some(p) => project == Some(p@),
                        None => project is None,
                    },
                }
            }),
    {
        proof {
            reveal_strlit("--database=");
            reveal_strlit("--project=");
        }
        let mut database: Option<PathArgument> = None;
        let mut project: Option<String> = None;
        let mut words: Vec<String> = Vec::new();
        let mut index: usize = 1;
        assert(words@.map_values(|w: String| w@) =~= Seq::<Seq<char>>::empty());
        while index < arguments.len()
            invariant
                arguments.len() < usize::MAX - 1,
                1 <= index,
                index <= arguments.len() + 1,
                scan(arguments@, 1, None, None, Seq::empty()) == scan(
                    arguments@,
                    index as int,
                    path_view(database),
                    match project {
                        Some(p) => Some(p@),
                        None => None,
                    },
                    words@.map_values(|w: String| w@),
                ),
            decreases arguments.len() + 1 - index,
        {
            match &arguments[index] {
                None => {
                    index = index + 1;
                },
                Some(argument) => {
                    let a = argument.as_str();
                    if str_equals(a, "--database") {
                        database = if index + 1 < arguments.len() {
                            match &arguments[index + 1] {
                                Some(t) => Some(PathArgument::Text(t.clone())),
                                None => Some(PathArgument::Raw(index + 1)),
                            }
                        } else {
                            None
                        };
                        index = index + 2;
                    } else if str_equals(a, "--project") {
                        project = if index + 1 < arguments.len() {
                            match &arguments[index + 1] {
                                Some(t) => Some(t.clone()),
                                None => None,
                            }
                        } else {
                            None
                        };
                        index = index + 2;
                    } else if str_equals(a, "--idempotency-key") {
                        index = index + 2;
                    } else {
                        let chars = chars_of(a);
                        if has_prefix(&chars, "--database=") {
                            proof {
                                reveal_strlit("--database=");
                                assert("--database="@.len() == 11);
                            }
                            database = Some(PathArgument::Text(skip_chars(&chars, 11)));
                        } else if has_prefix(&chars, "--project=") {
                            proof {
                                reveal_strlit("--project=");
                                assert("--project="@.len() == 10);
                            }
                            project = Some(skip_chars(&chars, 10));
                        } else if has_prefix(&chars, "-") {
                        } else {
                            let ghost before = words@.map_values(|w: String| w@);
                            words.push(argument.clone());
                            assert(words@.map_values(|w: String| w@) =~= before.push(a@));
                        }
                        index = index + 1;
                    }
                },
            }
        }
        if words.len() == 0 {
            return None;
        }
        let root = words[0].as_str();
        let sub = if words.len() > 1 {
            Some(words[1].as_str())
        } else {
            None
        };
        let operation = audit_operation(root, sub)?;
        Some(AuditInvocation { operation, database, project })
    }
}

} // verus!
