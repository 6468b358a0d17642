use bettr::cli::{audit_operation, AuditInvocation, IssueEditCommand, IssueTransitionTarget, PathArgument};
use bettr::domain::{
    AssigneeKind, CapabilitySet, Issue, IssueDependency, IssueListItem, IssueParent, IssueState,
    IssueWorktree, Priority, Project, RedactionResult, Status, WorktreeContext,
};
use bettr::error::AppError;
use bettr::output::{
    escape_terminal_controls, format_uuid, issue_lines, write_capabilities_human,
    write_issue_dependencies_human, write_issue_list_human, write_issue_parents_human,
    write_issue_worktrees_human, write_projects_human, write_redaction_human, write_status_human,
    OutputMode,
};
use bettr::worktree::{from_path, git_output_value};

fn issue(state: IssueState) -> Issue {
    Issue {
        id: 1,
        project_id: 2,
        number: 12,
        title: "Fix\tit".to_owned(),
        body: None,
        state,
        priority: None,
        assignee_kind: None,
        assignee_name: Some("codex".to_owned()),
        revision: 4,
        created_at: 0,
        updated_at: 0,
    }
}

fn item(state: IssueState, branches: Vec<Option<&str>>) -> IssueListItem {
    IssueListItem {
        project: "bettr".to_owned(),
        issue: issue(state),
        worktrees: branches
            .into_iter()
            .map(|branch| IssueWorktree {
                issue: "bettr#12".to_owned(),
                path: "/w".to_owned(),
                branch: branch.map(str::to_owned),
                active: true,
            })
            .collect(),
    }
}

#[test]
fn terminal_controls_are_escaped() {
    assert_eq!(escape_terminal_controls("plain text"), "plain text");
    assert_eq!(escape_terminal_controls("a\x1b[31mb"), "a\\u{1b}[31mb");
    assert_eq!(escape_terminal_controls("tab\there\n"), "tab\\there\\n");
    assert_eq!(escape_terminal_controls("é"), "\\u{e9}");
}

#[test]
fn uuids_are_written_in_hyphenated_lowercase() {
    assert_eq!(
        format_uuid(0x67e55044_10b1_426f_9247_bb680e5fe0c8),
        "67e55044-10b1-426f-9247-bb680e5fe0c8"
    );
    assert_eq!(format_uuid(0), "00000000-0000-0000-0000-000000000000");
}

#[test]
fn an_issue_is_written_field_by_field() {
    let lines = issue_lines("bettr", &issue(IssueState::Blocked));
    assert_eq!(
        lines,
        vec![
            "bettr#12",
            "state: blocked",
            "title: Fix\\tit",
            "revision: 4",
            "priority: none",
            "assignee: codex",
            "body:",
            "none",
        ]
    );
}

#[test]
fn listings_write_one_line_per_entry() {
    let projects = vec![Project {
        id: 1,
        name: "core".to_owned(),
        archived: false,
        created_at: 0,
    }];
    assert_eq!(
        write_projects_human(&projects),
        vec!["00000000-0000-0000-0000-000000000001 core"]
    );
    let listed = write_issue_list_human(&vec![item(IssueState::Todo, vec![Some("main"), None])]);
    assert_eq!(listed, vec!["bettr#12 [todo] Fix\\tit worktrees=main,detached"]);
    let dependencies = vec![IssueDependency {
        blocker: "bettr#1".to_owned(),
        blocked: "bettr#2".to_owned(),
        relation: "blocks".to_owned(),
        created_at: 0,
    }];
    assert_eq!(write_issue_dependencies_human(&dependencies), vec!["bettr#1 blocks bettr#2"]);
    let parents = vec![IssueParent {
        child: "bettr#2".to_owned(),
        parent: "bettr#1".to_owned(),
        created_at: 0,
    }];
    assert_eq!(write_issue_parents_human(&parents), vec!["bettr#2 parent bettr#1"]);
    let worktrees = vec![IssueWorktree {
        issue: "bettr#2".to_owned(),
        path: "/src/w".to_owned(),
        branch: None,
        active: false,
    }];
    assert_eq!(
        write_issue_worktrees_human(&worktrees),
        vec!["bettr#2 inactive branch=detached path=/src/w"]
    );
}

#[test]
fn the_status_view_skips_empty_sections() {
    let status = Status {
        attention: vec![],
        stale: vec![],
        blocked: vec![item(IssueState::Blocked, vec![])],
        recently_completed: vec![],
        active: vec![item(IssueState::InProgress, vec![])],
    };
    assert_eq!(
        write_status_human(&status),
        vec![
            "blocked:",
            "  bettr#12 [blocked] Fix\\tit",
            "active:",
            "  bettr#12 [in_progress] Fix\\tit",
        ]
    );
}

#[test]
fn capabilities_are_written_as_name_and_value() {
    let capabilities = CapabilitySet {
        json_contract_version: 1,
        cli_version: "0.1.0",
        capabilities: vec![("audit_jsonl", true), ("web", false)],
    };
    assert_eq!(
        write_capabilities_human(&capabilities),
        vec![
            "json_contract_version: 1",
            "cli_version: 0.1.0",
            "audit_jsonl: true",
            "web: false",
        ]
    );
}

#[test]
fn the_json_flag_selects_json_output() {
    let arguments = vec![Some("bettr".to_owned()), None, Some("--json".to_owned())];
    assert_eq!(OutputMode::from_arguments(&arguments), OutputMode::Json);
    let human = vec![Some("bettr".to_owned()), Some("--jsonx".to_owned())];
    assert_eq!(OutputMode::from_arguments(&human), OutputMode::Human);
}

#[test]
fn edit_flags_become_a_patch() {
    let command = IssueEditCommand {
        target: IssueTransitionTarget {
            number: 3,
            revision: 2,
        },
        title: None,
        body: Some("ignored".to_owned()),
        clear_body: true,
        priority: Some(Priority::Low),
        clear_priority: false,
        assignee_kind: Some(AssigneeKind::Human),
        assignee_name: None,
        clear_assignee: false,
    };
    let patch = command.into_patch();
    assert_eq!(patch.title, None);
    assert_eq!(patch.body, Some(None));
    assert_eq!(patch.priority, Some(Some(Priority::Low)));
    assert_eq!(patch.assignee_kind, Some(Some(AssigneeKind::Human)));
    assert_eq!(patch.assignee_name, None);
}

#[test]
fn a_failed_command_line_still_names_its_operation() {
    assert_eq!(audit_operation("issue", Some("edit")), Some("issue_edit"));
    assert_eq!(audit_operation("issue", Some("frobnicate")), Some("issue"));
    assert_eq!(audit_operation("bogus", None), None);
    let arguments = vec![
        Some("bettr".to_owned()),
        Some("--database".to_owned()),
        Some("/tmp/x.db".to_owned()),
        Some("--project=core".to_owned()),
        Some("issue".to_owned()),
        Some("--idempotency-key".to_owned()),
        Some("k".to_owned()),
        Some("start".to_owned()),
        Some("3".to_owned()),
    ];
    let invocation = AuditInvocation::from_arguments(&arguments).unwrap();
    assert_eq!(invocation.operation, "issue_start");
    assert!(matches!(invocation.database, Some(PathArgument::Text(ref path)) if path == "/tmp/x.db"));
    assert_eq!(invocation.project, Some("core".to_owned()));
    assert!(AuditInvocation::from_arguments(&vec![Some("bettr".to_owned())]).is_none());
}

#[test]
fn git_output_is_trimmed_and_must_be_unicode() {
    assert_eq!(git_output_value(b" true\n".to_vec()).unwrap(), Some("true".to_owned()));
    assert_eq!(git_output_value(b"\n".to_vec()).unwrap(), None);
    assert!(matches!(
        git_output_value(vec![0xff, 0xfe]),
        Err(AppError::InvalidInput(message)) if message == "Git output must be valid Unicode"
    ));
    let context = WorktreeContext {
        path: "/src".to_owned(),
        branch: Some("main".to_owned()),
    };
    assert_eq!(from_path("/src", Some(context)).unwrap().path, "/src");
    assert!(matches!(
        from_path("/tmp", None),
        Err(AppError::InvalidInput(message)) if message == "path is not inside a Git worktree: /tmp"
    ));
}

#[test]
fn redaction_line_names_the_target_and_the_record_count() {
    let result = RedactionResult {
        target_type: "comment\u{1b}".to_owned(),
        target_id: 0x0123_4567_89ab_cdef_0123_4567_89ab_cdef,
        changed_count: 12,
    };
    assert_eq!(
        write_redaction_human(&result),
        "redacted comment\\u{1b} 01234567-89ab-cdef-0123-456789abcdef (12 records)"
    );
}
