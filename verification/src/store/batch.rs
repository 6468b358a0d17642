//! The checks of a batch of Issue operations, made before any of them runs.
use crate::domain::{
    issue_body_error, issue_title_error, metadata_error, new_issue_error, opt_string_view,
    patch_error, project_name_error, validate_comment_body, validate_project_name, comment_body_error,
    BatchOperation, DomainError, IssuePatch, NewIssue, Transition,
};
use crate::error::{fails_with_input, invalid_input, AppError};
use vstd::prelude::*;

verus! {

/// The project of a batch operation: its own, or the batch's default.
pub open spec fn batch_project_spec(project: Option<Seq<char>>, default_project: Option<Seq<char>>) -> Result<
    Seq<char>,
    Seq<char>,
> {
    let chosen = match project {
        Some(p) => Some(p),
        None => default_project,
    };
    match chosen {
        None => Err("issue batch operation requires a project or --project"@),
        Some(p) => match project_name_error(p) {
            Some(m) => Err(m),
            None => Ok(p),
        },
    }
}

/// The project of a batch operation, checked.
pub fn batch_project<'a>(project: Option<&'a str>, default_project: Option<&'a str>) -> (r: Result<
    &'a str,
    AppError,
>)
    ensures
        match batch_project_spec(
            match project {
                Some(p) => Some(p@),
                None => None,
            },
            match default_project {
                Some(p) => Some(p@),
                None => None,
            },
        ) {
            Ok(p) => r matches Ok(q) && q@ == p,
            Err(m) => fails_with_input(r, m),
        },
{
    let chosen = match project {
        Some(p) => Some(p),
        None => default_project,
    };
    match chosen {
        None => Err(invalid_input("issue batch operation requires a project or --project")),
        Some(p) => {
            validate_project_name(p)?;
            Ok(p)
        },
    }
}

/// A batch operation whose input has been checked.
#[derive(Debug)]
pub enum BatchStep {
    Create { project: String, input: NewIssue },
    Edit { project: String, number: i64, revision: i64, patch: IssuePatch },
    Comment { project: String, number: i64, body: String },
    Transition { project: String, number: i64, revision: i64, transition: Transition },
}

pub open spec fn opt_view(o: Option<String>) -> Option<Seq<char>> {
    opt_string_view(o)
}

/// The first problem, if any, of the input of a batch operation; every
/// problem is invalid input.
pub open spec fn batch_operation_error(op: BatchOperation, default_project: Option<Seq<char>>) -> Option<
    Seq<char>,
> {
    let numbered = |project: Option<String>, number: i64, revision: i64, rest: Option<Seq<char>>|
        match batch_project_spec(opt_view(project), default_project) {
            Err(m) => Some(m),
            Ok(_) => if number < 1 {
                Some("issue number must be positive"@)
            } else if revision < 1 {
                Some("issue revision must be positive"@)
            } else {
                rest
            },
        };
    match op {
        BatchOperation::IssueCreate { project, title, body, priority } => match batch_project_spec(
            opt_view(project),
            default_project,
        ) {
            Err(m) => Some(m),
            Ok(_) => new_issue_error(NewIssue { title, body, priority }),
        },
        BatchOperation::IssueEdit { project, number, revision, patch } => numbered(
            project,
            number,
            revision,
            patch_error(patch),
        ),
        BatchOperation::IssueComment { project, number, body } => match batch_project_spec(
            opt_view(project),
            default_project,
        ) {
            Err(m) => Some(m),
            Ok(_) => if number < 1 {
                Some("issue number must be positive"@)
            } else {
                comment_body_error(body@)
            },
        },
        BatchOperation::IssueStart { project, number, revision } => numbered(
            project,
            number,
            revision,
            None,
        ),
        BatchOperation::IssueBlock { project, number, revision, reason, wait_kind } => numbered(
            project,
            number,
            revision,
            metadata_error("block reason"@, reason@),
        ),
        BatchOperation::IssueResume { project, number, revision } => numbered(
            project,
            number,
            revision,
            None,
        ),
        BatchOperation::IssueComplete { project, number, revision, summary, verification } => numbered(
            project,
            number,
            revision,
            match metadata_error("completion summary"@, summary@) {
                Some(m) => Some(m),
                None => metadata_error("completion verification"@, verification@),
            },
        ),
        BatchOperation::IssueCancel { project, number, revision, reason } => numbered(
            project,
            number,
            revision,
            metadata_error("cancellation reason"@, reason@),
        ),
        BatchOperation::IssueReopen { project, number, revision, reason } => numbered(
            project,
            number,
            revision,
            metadata_error("reopen reason"@, reason@),
        ),
    }
}

/// The step that a sound batch operation becomes.
pub open spec fn batch_step_matches(op: BatchOperation, step: BatchStep, default_project: Option<Seq<char>>) -> bool {
    let project_of = |p: Option<String>| batch_project_spec(opt_view(p), default_project)->Ok_0;
    match op {
        BatchOperation::IssueCreate { project, title, body, priority } => step matches BatchStep::Create {
            project: p,
            input,
        } && p@ == project_of(project) && input == (NewIssue { title, body, priority }),
        BatchOperation::IssueEdit { project, number, revision, patch } => step matches BatchStep::Edit {
            project: p,
            number: n,
            revision: r,
            patch: q,
        } && p@ == project_of(project) && n == number && r == revision && q == patch,
        BatchOperation::IssueComment { project, number, body } => step matches BatchStep::Comment {
            project: p,
            number: n,
            body: b,
        } && p@ == project_of(project) && n == number && b == body,
        BatchOperation::IssueStart { project, number, revision } => step matches BatchStep::Transition {
            project: p,
            number: n,
            revision: r,
            transition: t,
        } && p@ == project_of(project) && n == number && r == revision && t is Start,
        BatchOperation::IssueBlock { project, number, revision, reason, wait_kind } => step matches BatchStep::Transition {
            project: p,
            number: n,
            revision: r,
            transition: t,
        } && p@ == project_of(project) && n == number && r == revision && (t matches Transition::Block(
            b,
        ) && b.reason == reason && b.wait_kind == wait_kind),
        BatchOperation::IssueResume { project, number, revision } => step matches BatchStep::Transition {
            project: p,
            number: n,
            revision: r,
            transition: t,
        } && p@ == project_of(project) && n == number && r == revision && t is Resume,
        BatchOperation::IssueComplete { project, number, revision, summary, verification } => step matches BatchStep::Transition {
            project: p,
            number: n,
            revision: r,
            transition: t,
        } && p@ == project_of(project) && n == number && r == revision && (t matches Transition::Complete(
            c,
        ) && c.summary == summary && c.verification == verification),
        BatchOperation::IssueCancel { project, number, revision, reason } => step matches BatchStep::Transition {
            project: p,
            number: n,
            revision: r,
            transition: t,
        } && p@ == project_of(project) && n == number && r == revision && (t matches Transition::Cancel(
            c,
        ) && c.reason == reason),
        BatchOperation::IssueReopen { project, number, revision, reason } => step matches BatchStep::Transition {
            project: p,
            number: n,
            revision: r,
            transition: t,
        } && p@ == project_of(project) && n == number && r == revision && (t matches Transition::Reopen(
            c,
        ) && c.reason == reason),
    }
}

fn copy_patch(p: &IssuePatch) -> (r: IssuePatch)
    ensures
        r == *p,
{
    let nested = |o: &Option<Option<String>>| -> (r: Option<Option<String>>)
        ensures
            r == *o,
        {
            match o {
                Some(x) => Some(crate::domain::clone_opt_string(x)),
                None => None,
            }
        };
    IssuePatch {
        title: crate::domain::clone_opt_string(&p.title),
        body: nested(&p.body),
        priority: p.priority,
        assignee_kind: p.assignee_kind,
        assignee_name: nested(&p.assignee_name),
    }
}

fn project_arg(project: &Option<String>) -> (r: Option<&str>)
    ensures
        match r {
            Some(s) => opt_view(*project) == Some(s@),
            None => project is None,
        },
{
    match project {
        Some(p) => Some(p.as_str()),
        None => None,
    }
}

fn check_numbered(number: i64, revision: i64) -> (r: Result<(), AppError>)
    ensures
        number < 1 ==> fails_with_input(r, "issue number must be positive"@),
        number >= 1 && revision < 1 ==> fails_with_input(r, "issue revision must be positive"@),
        number >= 1 && revision >= 1 ==> r is Ok,
{
    if number < 1 {
        return Err(invalid_input("issue number must be positive"));
    }
    if revision < 1 {
        return Err(invalid_input("issue revision must be positive"));
    }
    Ok(())
}

fn transition_step(
    project: String,
    number: i64,
    revision: i64,
    transition: Result<Transition, DomainError>,
) -> (r: Result<BatchStep, AppError>)
    requires
        transition matches Err(e) ==> e is InvalidMetadata,
    ensures
        match transition {
            Ok(t) => r matches Ok(BatchStep::Transition { project: p, number: n, revision: v, transition: u })
                && p == project && n == number && v == revision && u == t,
            Err(DomainError::InvalidMetadata(m)) => fails_with_input(r, m@),
            Err(_) => false,
        },
{
    match transition {
        Ok(t) => Ok(BatchStep::Transition { project, number, revision, transition: t }),
        Err(e) => Err(e.into_app_error()),
    }
}

/// Checks one operation of a batch, in the order the batch reports problems:
/// its project, its number and revision, then its own input.
pub fn plan_batch_operation(operation: &BatchOperation, default_project: Option<&str>) -> (r: Result<
    BatchStep,
    AppError,
>)
    ensures
        ({
            let d = match default_project {
                Some(p) => Some(p@),
                None => None,
            };
            match batch_operation_error(*operation, d) {
                Some(m) => fails_with_input(r, m),
                None => r matches Ok(step) && batch_step_matches(*operation, step, d),
            }
        }),
{
    match operation {
        BatchOperation::IssueCreate { project, title, body, priority } => {
            let p = batch_project(project_arg(project), default_project)?;
            let input = NewIssue {
                title: title.clone(),
                body: crate::domain::clone_opt_string(body),
                priority: *priority,
            };
            input.validate()?;
            Ok(BatchStep::Create { project: p.to_owned(), input })
        },
        BatchOperation::IssueEdit { project, number, revision, patch } => {
            let p = batch_project(project_arg(project), default_project)?;
            check_numbered(*number, *revision)?;
            patch.validate()?;
            Ok(
                BatchStep::Edit {
                    project: p.to_owned(),
                    number: *number,
                    revision: *revision,
                    patch: copy_patch(patch),
                },
            )
        },
        BatchOperation::IssueComment { project, number, body } => {
            let p = batch_project(project_arg(project), default_project)?;
            if *number < 1 {
                return Err(invalid_input("issue number must be positive"));
            }
            validate_comment_body(body.as_str())?;
            Ok(BatchStep::Comment { project: p.to_owned(), number: *number, body: body.clone() })
        },
        BatchOperation::IssueStart { project, number, revision } => {
            let p = batch_project(project_arg(project), default_project)?;
            check_numbered(*number, *revision)?;
            transition_step(p.to_owned(), *number, *revision, Ok(Transition::Start))
        },
        BatchOperation::IssueBlock { project, number, revision, reason, wait_kind } => {
            let t = Transition::block(reason.clone(), *wait_kind);
            let p = batch_project(project_arg(project), default_project)?;
            check_numbered(*number, *revision)?;
            transition_step(p.to_owned(), *number, *revision, t)
        },
        BatchOperation::IssueResume { project, number, revision } => {
            let p = batch_project(project_arg(project), default_project)?;
            check_numbered(*number, *revision)?;
            transition_step(p.to_owned(), *number, *revision, Ok(Transition::Resume))
        },
        BatchOperation::IssueComplete { project, number, revision, summary, verification } => {
            let t = Transition::complete(summary.clone(), verification.clone());
            let p = batch_project(project_arg(project), default_project)?;
            check_numbered(*number, *revision)?;
            transition_step(p.to_owned(), *number, *revision, t)
        },
        BatchOperation::IssueCancel { project, number, revision, reason } => {
            let t = Transition::cancel(reason.clone());
            let p = batch_project(project_arg(project), default_project)?;
            check_numbered(*number, *revision)?;
            transition_step(p.to_owned(), *number, *revision, t)
        },
        BatchOperation::IssueReopen { project, number, revision, reason } => {
            let t = Transition::reopen(reason.clone());
            let p = batch_project(project_arg(project), default_project)?;
            check_numbered(*number, *revision)?;
            transition_step(p.to_owned(), *number, *revision, t)
        },
    }
}

} // verus!
