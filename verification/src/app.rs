//! The decisions that the application makes around the store: where its
//! context comes from, how it checks each request before running it, and how
//! it reports.
use crate::domain::{
    issue_title_error, project_name_error, validate_decision_options, validate_decision_text,
    validate_idempotency_key, validate_project_name, idempotency_key_error, CapabilitySet,
    DomainError, ExecutionContext, InitiatorKind, IssueListItem, IssueState, Status, Transition,
    first_blank_option, next_state, transition_kind_name, issue_state_name, DecisionRequestInput,
    spec_app_error_of, Issue, IssuePatch, patch_error, comment_body_error, validate_comment_body,
};
use crate::error::{
    conflict, fails_with_conflict, fails_with_input, invalid_input, spec_code, AppError,
};
use crate::text::{concat, concat3, is_blank, is_blank_str, push_str, str_equals, trim, trim_str};
use vstd::prelude::*;

verus! {

/// Where a context value came from, in the order of precedence.
#[derive(Clone, Copy, Debug, PartialEq, Eq, Structural)]
pub enum ContextSource {
    Argument,
    Environment,
    DirectoryConfig,
    UserConfig,
    Default,
}

pub open spec fn context_source_name(s: ContextSource) -> Seq<char> {
    match s {
        ContextSource::Argument => "argument"@,
        ContextSource::Environment => "environment"@,
        ContextSource::DirectoryConfig => "directory_config"@,
        ContextSource::UserConfig => "user_config"@,
        ContextSource::Default => "default"@,
    }
}

impl ContextSource {
    pub fn as_str(self) -> (s: &'static str)
        ensures
            s@ == context_source_name(self),
    {
        match self {
            ContextSource::Argument => "argument",
            ContextSource::Environment => "environment",
            ContextSource::DirectoryConfig => "directory_config",
            ContextSource::UserConfig => "user_config",
            ContextSource::Default => "default",
        }
    }
}

/// A resolved value and where it came from.
#[derive(Clone, Debug)]
pub struct ResolvedValue<T> {
    pub value: T,
    pub source: ContextSource,
}

/// The project and database that a command runs against; the database is a
/// path.
#[derive(Clone, Debug)]
pub struct ResolvedContext {
    pub project: ResolvedValue<Option<String>>,
    pub database: ResolvedValue<String>,
}

/// Where `bettr self update` takes the new build from.
#[derive(Clone, Copy, Debug, PartialEq, Eq, Structural)]
pub enum UpdateSource {
    Release,
    Main,
}

pub open spec fn update_source_name(s: UpdateSource) -> Seq<char> {
    match s {
        UpdateSource::Release => "release"@,
        UpdateSource::Main => "main"@,
    }
}

impl UpdateSource {
    pub fn as_str(self) -> (s: &'static str)
        ensures
            s@ == update_source_name(self),
    {
        match self {
            UpdateSource::Release => "release",
            UpdateSource::Main => "main",
        }
    }

    /// The update source that a config file names: exactly `release` or
    /// `main`, as the source's name is written.
    pub fn from_config(value: &str) -> (r: Option<UpdateSource>)
        ensures
            value@ == update_source_name(UpdateSource::Release) ==> r == Some(UpdateSource::Release),
            value@ == update_source_name(UpdateSource::Main) ==> r == Some(UpdateSource::Main),
            value@ != update_source_name(UpdateSource::Release) && value@ != update_source_name(
                UpdateSource::Main,
            ) ==> r is None,
    {
        proof {
            reveal_strlit("release");
            reveal_strlit("main");
            assert("release"@.len() != "main"@.len());
        }
        if str_equals(value, "release") {
            Some(UpdateSource::Release)
        } else if str_equals(value, "main") {
            Some(UpdateSource::Main)
        } else {
            None
        }
    }
}

/// A project context value is a valid project name.
pub fn validate_project_context(project: String) -> (r: Result<String, AppError>)
    ensures
        match project_name_error(project@) {
            Some(m) => fails_with_input(r, m),
            None => r == Ok::<String, AppError>(project),
        },
{
    validate_project_name(project.as_str())?;
    Ok(project)
}

/// The project a command runs in: the argument, else `BETTR_PROJECT`, else
/// the nearest directory config, else the user config, else none.
pub open spec fn project_choice(
    argument: Option<String>,
    environment: Option<String>,
    directory: Option<String>,
    user: Option<String>,
) -> Option<(String, ContextSource)> {
    if argument is Some {
        Some((argument->0, ContextSource::Argument))
    } else if environment is Some {
        Some((environment->0, ContextSource::Environment))
    } else if directory is Some {
        Some((directory->0, ContextSource::DirectoryConfig))
    } else if user is Some {
        Some((user->0, ContextSource::UserConfig))
    } else {
        None
    }
}

/// Resolves the project by precedence and checks the chosen name.
pub fn resolve_project(
    argument: Option<String>,
    environment: Option<String>,
    directory: Option<String>,
    user: Option<String>,
) -> (r: Result<ResolvedValue<Option<String>>, AppError>)
    ensures
        match project_choice(argument, environment, directory, user) {
            None => r matches Ok(v) && v.value is None && v.source == ContextSource::Default,
            Some((p, source)) => match project_name_error(p@) {
                Some(m) => fails_with_input(r, m),
                None => r matches Ok(v) && v.value == Some(p) && v.source == source,
            },
        },
{
    let (project, source) = if let Some(p) = argument {
        (p, ContextSource::Argument)
    } else if let Some(p) = environment {
        (p, ContextSource::Environment)
    } else if let Some(p) = directory {
        (p, ContextSource::DirectoryConfig)
    } else if let Some(p) = user {
        (p, ContextSource::UserConfig)
    } else {
        return Ok(ResolvedValue { value: None, source: ContextSource::Default });
    };
    let project = validate_project_context(project)?;
    Ok(ResolvedValue { value: Some(project), source })
}

/// A database path is not empty.
pub fn validate_database_path(name: &str, database: String) -> (r: Result<String, AppError>)
    ensures
        database@.len() == 0 ==> fails_with_input(r, name@ + " must not be empty"@),
        database@.len() > 0 ==> r == Ok::<String, AppError>(database),
{
    if database.as_str().unicode_len() == 0 {
        return Err(AppError::InvalidInput(concat(name, " must not be empty")));
    }
    Ok(database)
}

/// The database a command opens: the argument, else `BETTR_DATABASE`, else
/// the user config's absolute path, else the platform data directory's
/// `bettr.db`. `user_config` carries the configured path and whether it is
/// absolute; `default_path` is `None` where the platform has no data
/// directory.
pub fn resolve_database(
    argument: Option<String>,
    environment: Option<String>,
    user_config: Option<(String, bool)>,
    user_config_path: &str,
    default_path: Option<String>,
) -> (r: Result<ResolvedValue<String>, AppError>)
    ensures
        argument matches Some(a) ==> (if a@.len() == 0 {
            fails_with_input(r, "--database"@ + " must not be empty"@)
        } else {
            r matches Ok(v) && v.value == a && v.source == ContextSource::Argument
        }),
        argument is None && environment is Some ==> (if environment->0@.len() == 0 {
            fails_with_input(r, "BETTR_DATABASE"@ + " must not be empty"@)
        } else {
            r matches Ok(v) && v.value == environment->0 && v.source == ContextSource::Environment
        }),
        argument is None && environment is None && user_config is Some ==> ({
        let (p, absolute) = user_config->0;
        if !absolute {
            fails_with_input(
                r,
                "database in "@ + user_config_path@ + " must be an absolute path"@,
            )
        } else if p@.len() == 0 {
            fails_with_input(r, "user config database"@ + " must not be empty"@)
        } else {
            r matches Ok(v) && v.value == p && v.source == ContextSource::UserConfig
        }}),
        argument is None && environment is None && user_config is None ==> match default_path {
            Some(d) => r matches Ok(v) && v.value == d && v.source == ContextSource::Default,
            None => fails_with_input(r, "could not resolve the platform data directory"@),
        },
{
    if let Some(a) = argument {
        let value = validate_database_path("--database", a)?;
        return Ok(ResolvedValue { value, source: ContextSource::Argument });
    }
    if let Some(e) = environment {
        let value = validate_database_path("BETTR_DATABASE", e)?;
        return Ok(ResolvedValue { value, source: ContextSource::Environment });
    }
    if let Some((p, absolute)) = user_config {
        if !absolute {
            return Err(
                AppError::InvalidInput(
                    concat3("database in ", user_config_path, " must be an absolute path"),
                ),
            );
        }
        let value = validate_database_path("user config database", p)?;
        return Ok(ResolvedValue { value, source: ContextSource::UserConfig });
    }
    match default_path {
        Some(d) => Ok(ResolvedValue { value: d, source: ContextSource::Default }),
        None => Err(invalid_input("could not resolve the platform data directory")),
    }
}

/// `c` with ASCII letters lowered, as `to_ascii_lowercase` does.
pub open spec fn ascii_lower(c: char) -> char {
    if 'A' <= c && c <= 'Z' {
        ((c as u32) + 32) as char
    } else {
        c
    }
}

pub open spec fn ascii_lower_text(s: Seq<char>) -> Seq<char> {
    s.map_values(|c: char| ascii_lower(c))
}

fn lower_char(c: char) -> (d: char)
    ensures
        d == ascii_lower(c),
{
    if 'A' <= c && c <= 'Z' {
        ((c as u32) + 32) as u8 as char
    } else {
        c
    }
}

/// Only a human may redact what the store holds.
pub fn check_redaction_context(context: &ExecutionContext) -> (r: Result<(), AppError>)
    ensures
        context.kind == InitiatorKind::Human ==> r is Ok,
        context.kind != InitiatorKind::Human ==> fails_with_conflict(
            r,
            "redaction requires a human execution context"@,
        ),
{
    if context.kind == InitiatorKind::Human {
        Ok(())
    } else {
        Err(conflict("redaction requires a human execution context"))
    }
}

/// The error reported when a failure could not be audited: it names the
/// operation and the codes of both errors, never their messages.
pub fn failure_audit_error(operation: &str, operation_error: &AppError, audit_error: &AppError) -> (e:
    AppError)
    ensures
        e matches AppError::Internal(m) && m@ == "failed to persist failure audit for "@
            + operation@ + " after "@ + spec_code(*operation_error) + " ("@ + spec_code(
            *audit_error,
        ) + ")"@,
{
    let mut m = concat3("failed to persist failure audit for ", operation, " after ");
    push_str(&mut m, operation_error.code());
    push_str(&mut m, " (");
    push_str(&mut m, audit_error.code());
    push_str(&mut m, ")");
    AppError::Internal(m)
}

/// The application: a store and the idempotency key of the command it runs.
pub struct App<D> {
    pub database: D,
    pub idempotency_key: Option<String>,
}

impl<D> App<D> {
    pub fn new(database: D) -> (app: Self)
        ensures
            app.database == database,
            app.idempotency_key is None,
    {
        App { database, idempotency_key: None }
    }

    /// Sets the idempotency key of the command, which must be a valid key.
    pub fn with_idempotency_key(self, key: Option<String>) -> (r: Result<Self, AppError>)
        ensures
            match key {
                Some(k) => match idempotency_key_error(k@) {
                    Some(m) => fails_with_input(r, m),
                    None => r matches Ok(app) && app.database == self.database
                        && app.idempotency_key == key,
                },
                None => r matches Ok(app) && app.database == self.database
                    && app.idempotency_key is None,
            },
    {
        if let Some(k) = &key {
            validate_idempotency_key(k.as_str())?;
        }
        Ok(App { database: self.database, idempotency_key: key })
    }

    /// The update source named by `value`, whitespace around it ignored and
    /// letters in either case.
    pub fn parse_update_source(name: &str, value: &str) -> (r: Result<UpdateSource, AppError>)
        ensures
            ascii_lower_text(trim(value@)) == "release"@ ==> r == Ok::<UpdateSource, AppError>(
                UpdateSource::Release,
            ),
            ascii_lower_text(trim(value@)) == "main"@ ==> r == Ok::<UpdateSource, AppError>(
                UpdateSource::Main,
            ),
            ascii_lower_text(trim(value@)) != "release"@ && ascii_lower_text(trim(value@)) != "main"@
                ==> fails_with_input(r, name@ + " must be release or main"@),
    {
        let trimmed = trim_str(value);
        let chars = crate::text::chars_of(trimmed.as_str());
        let mut lowered = String::new();
        let mut i: usize = 0;
        while i < chars.len()
            invariant
                i <= chars.len(),
                chars@ == trim(value@),
                lowered@ == ascii_lower_text(chars@.take(i as int)),
            decreases chars.len() - i,
        {
            crate::text::push_char(&mut lowered, lower_char(chars[i]));
            assert(ascii_lower_text(chars@.take(i + 1)) =~= ascii_lower_text(chars@.take(i as int)).push(
                ascii_lower(chars@[i as int]),
            ));
            i = i + 1;
        }
        assert(chars@.take(i as int) =~= chars@);
        proof {
            reveal_strlit("release");
            reveal_strlit("main");
            assert("release"@.len() == 7);
            assert("main"@.len() == 4);
        }
        if str_equals(lowered.as_str(), "release") {
            Ok(UpdateSource::Release)
        } else if str_equals(lowered.as_str(), "main") {
            Ok(UpdateSource::Main)
        } else {
            Err(AppError::InvalidInput(concat(name, " must be release or main")))
        }
    }

    /// The update source: the argument, else `BETTR_UPDATE_SOURCE`, else the
    /// nearest directory config, else the user config, else `release`.
    pub fn resolved_update_source(
        argument: Option<UpdateSource>,
        environment: Option<&str>,
        directory: Option<UpdateSource>,
        user: Option<UpdateSource>,
    ) -> (r: Result<ResolvedValue<UpdateSource>, AppError>)
        ensures
            argument matches Some(a) ==> (r matches Ok(v) && v.value == a && v.source
                == ContextSource::Argument),
            argument is None && environment is Some ==> (r matches Ok(v) ==> v.source
                == ContextSource::Environment && (ascii_lower_text(trim(environment->0@)) == "main"@
                ==> v.value == UpdateSource::Main)) && (r is Err ==> fails_with_input(
                r,
                "BETTR_UPDATE_SOURCE"@ + " must be release or main"@,
            )),
            argument is None && environment is Some ==> (r is Ok <==> (ascii_lower_text(
                trim(environment->0@),
            ) == "release"@ || ascii_lower_text(trim(environment->0@)) == "main"@)),
            argument is None && environment is Some && ascii_lower_text(trim(environment->0@))
                == "release"@ ==> (r matches Ok(v) && v.value == UpdateSource::Release),
            argument is None && environment is None && directory is Some ==> (r matches Ok(v)
                && v.value == directory->0 && v.source == ContextSource::DirectoryConfig),
            argument is None && environment is None && directory is None && user is Some ==> (
            r matches Ok(v) && v.value == user->0 && v.source == ContextSource::UserConfig),
            argument is None && environment is None && directory is None && user is None ==> (r matches Ok(
                v,
            ) && v.value == UpdateSource::Release && v.source == ContextSource::Default),
    {
        if let Some(a) = argument {
            return Ok(ResolvedValue { value: a, source: ContextSource::Argument });
        }
        if let Some(e) = environment {
            let value = Self::parse_update_source("BETTR_UPDATE_SOURCE", e)?;
            return Ok(ResolvedValue { value, source: ContextSource::Environment });
        }
        if let Some(d) = directory {
            return Ok(ResolvedValue { value: d, source: ContextSource::DirectoryConfig });
        }
        if let Some(u) = user {
            return Ok(ResolvedValue { value: u, source: ContextSource::UserConfig });
        }
        Ok(ResolvedValue { value: UpdateSource::Release, source: ContextSource::Default })
    }

    /// The features of this build, sorted by name, every one enabled.
    pub fn capabilities() -> (c: CapabilitySet)
        ensures
            c.json_contract_version == 1,
            c.cli_version@ == CLI_VERSION@,
            c.capabilities@.len() == capability_names().len(),
            forall|i: int|
                0 <= i < c.capabilities@.len() ==> (#[trigger] c.capabilities@[i]).0@
                    == capability_names()[i] && c.capabilities@[i].1,
    {
        let capabilities = vec![
            ("audit_jsonl", true),
            ("capabilities", true),
            ("event_cursor", true),
            ("human_decisions", true),
            ("idempotency", true),
            ("issue_claim", true),
            ("issue_dependencies", true),
            ("issue_lease", true),
            ("issue_parent", true),
            ("issue_worktrees", true),
            ("redaction", true),
        ];
        CapabilitySet { json_contract_version: JSON_CONTRACT_VERSION, cli_version: CLI_VERSION, capabilities }
    }
}

/// The version of the JSON output contract.
pub const JSON_CONTRACT_VERSION: u32 = 1;

/// The version of this build.
pub const CLI_VERSION: &'static str = "0.1.0";

pub open spec fn capability_names() -> Seq<Seq<char>> {
    seq![
        "audit_jsonl"@,
        "capabilities"@,
        "event_cursor"@,
        "human_decisions"@,
        "idempotency"@,
        "issue_claim"@,
        "issue_dependencies"@,
        "issue_lease"@,
        "issue_parent"@,
        "issue_worktrees"@,
        "redaction"@,
    ]
}

/// The number of events a page holds when none is asked for.
pub const DEFAULT_EVENT_LIMIT: i64 = 100;

/// Checks an event page request: a cursor that is not negative and a limit
/// from 1 to 500, 100 by default. Gives the limit to use.
pub fn check_event_request(after: i64, limit: Option<i64>) -> (r: Result<usize, AppError>)
    ensures
        after < 0 ==> fails_with_input(r, "event cursor must not be negative"@),
        after >= 0 ==> ({
            let l = match limit {
                Some(l) => l,
                None => 100,
            };
            if 1 <= l <= 500 {
                r == Ok::<usize, AppError>(l as usize)
            } else {
                fails_with_input(r, "event limit must be between 1 and 500"@)
            }
        }),
{
    if after < 0 {
        return Err(invalid_input("event cursor must not be negative"));
    }
    let l = match limit {
        Some(l) => l,
        None => DEFAULT_EVENT_LIMIT,
    };
    if !(1 <= l && l <= 500) {
        return Err(invalid_input("event limit must be between 1 and 500"));
    }
    Ok(l as usize)
}

/// Where a page of events ends: its last sequence, or the cursor it started
/// from when it is empty. The next page starts there.
pub open spec fn page_end(after: i64, page: Seq<i64>) -> i64 {
    if page.len() == 0 {
        after
    } else {
        page.last()
    }
}

fn find_next(sequences: &Vec<i64>, cursor: i64) -> (r: Option<i64>)
    ensures
        match r {
            Some(x) => x > cursor && sequences@.contains(x) && forall|j: int|
                0 <= j < sequences@.len() && sequences@[j] > cursor ==> x <= #[trigger] sequences@[j],
            None => forall|j: int| 0 <= j < sequences@.len() ==> #[trigger] sequences@[j] <= cursor,
        },
{
    let mut found: Option<i64> = None;
    let mut i: usize = 0;
    while i < sequences.len()
        invariant
            i <= sequences.len(),
            match found {
                Some(x) => x > cursor && sequences@.contains(x) && forall|j: int|
                    0 <= j < i && sequences@[j] > cursor ==> x <= #[trigger] sequences@[j],
                None => forall|j: int| 0 <= j < i ==> #[trigger] sequences@[j] <= cursor,
            },
        decreases sequences.len() - i,
    {
        let s = sequences[i];
        if s > cursor {
            match found {
                None => {
                    found = Some(s);
                },
                Some(x) => if s < x {
                    found = Some(s);
                },
            }
        }
        i = i + 1;
    }
    found
}

/// A page of the event feed: among the sequences after the cursor, the
/// first `limit` in increasing order, each once, whether more follow, and
/// the cursor of the next page.
pub fn event_page(after: i64, limit: usize, sequences: &Vec<i64>) -> (r: (Vec<i64>, bool, i64))
    ensures
        r.2 == page_end(after, r.0@),
        r.0@.len() <= limit,
        forall|i: int, j: int| 0 <= i < j < r.0@.len() ==> r.0@[i] < r.0@[j],
        forall|i: int| 0 <= i < r.0@.len() ==> #[trigger] r.0@[i] > after && sequences@.contains(r.0@[i]),
        forall|j: int|
            0 <= j < sequences@.len() && after < #[trigger] sequences@[j] <= page_end(after, r.0@)
                ==> r.0@.contains(sequences@[j]),
        r.0@.len() < limit ==> forall|j: int|
            0 <= j < sequences@.len() ==> #[trigger] sequences@[j] <= page_end(after, r.0@),
        r.1 == exists|j: int| 0 <= j < sequences@.len() && #[trigger] sequences@[j] > page_end(after, r.0@),
{
    let mut page: Vec<i64> = Vec::new();
    let mut cursor = after;
    let mut exhausted = false;
    while page.len() < limit && !exhausted
        invariant
            page@.len() <= limit,
            cursor == page_end(after, page@),
            forall|i: int, j: int| 0 <= i < j < page@.len() ==> page@[i] < page@[j],
            forall|i: int| 0 <= i < page@.len() ==> #[trigger] page@[i] > after && sequences@.contains(page@[i]),
            forall|j: int|
                0 <= j < sequences@.len() && after < #[trigger] sequences@[j] <= cursor
                    ==> page@.contains(sequences@[j]),
            exhausted ==> forall|j: int| 0 <= j < sequences@.len() ==> #[trigger] sequences@[j] <= cursor,
        decreases limit - page@.len() + (if exhausted { 0int } else { 1int }),
    {
        match find_next(sequences, cursor) {
            None => {
                exhausted = true;
            },
            Some(x) => {
                let ghost old_page = page@;
                page.push(x);
                proof {
                    assert forall|j: int|
                        0 <= j < sequences@.len() && after < #[trigger] sequences@[j] <= x
                            implies page@.contains(sequences@[j]) by {
                        if sequences@[j] <= cursor {
                            let k = choose|k: int| 0 <= k < old_page.len() && old_page[k] == sequences@[j];
                            assert(page@[k] == sequences@[j]);
                        } else {
                            assert(page@[old_page.len() as int] == x);
                        }
                    }
                    assert forall|i: int| 0 <= i < page@.len() implies #[trigger] page@[i] > after
                        && sequences@.contains(page@[i]) by {
                        if i < old_page.len() {
                            assert(page@[i] == old_page[i]);
                        }
                    }
                }
                cursor = x;
            },
        }
    }
    let more = match find_next(sequences, cursor) {
        Some(_) => true,
        None => false,
    };
    proof {
        if more {
            let x = choose|x: i64| x > cursor && sequences@.contains(x);
            let j = choose|j: int| 0 <= j < sequences@.len() && sequences@[j] == x;
            assert(sequences@[j] > page_end(after, page@));
        }
    }
    (page, more, cursor)
}

/// An Issue number names an Issue only when it is positive.
pub fn check_issue_number(number: i64) -> (r: Result<(), AppError>)
    ensures
        number < 1 ==> fails_with_input(r, "issue number must be positive"@),
        number >= 1 ==> r is Ok,
{
    if number < 1 {
        return Err(invalid_input("issue number must be positive"));
    }
    Ok(())
}

/// A revision that a write expects is positive.
pub fn check_revision_argument(revision: i64) -> (r: Result<(), AppError>)
    ensures
        revision < 1 ==> fails_with_input(r, "issue revision must be positive"@),
        revision >= 1 ==> r is Ok,
{
    if revision < 1 {
        return Err(invalid_input("issue revision must be positive"));
    }
    Ok(())
}

/// Plans a state transition of an Issue: the transition's own metadata, the
/// number and the expected revision are checked first, then the Issue that
/// was read, its current revision, and the transition table. Gives the Issue
/// back with the state it moves to.
pub fn plan_transition(
    transition: Result<Transition, DomainError>,
    number: i64,
    expected_revision: i64,
    issue: Result<Issue, AppError>,
) -> (r: Result<(Issue, IssueState), AppError>)
    ensures
        transition matches Err(e) ==> (r matches Err(a) && spec_app_error_of(e, a)),
        transition is Ok && number < 1 ==> fails_with_input(r, "issue number must be positive"@),
        transition is Ok && number >= 1 && expected_revision < 1 ==> fails_with_input(
            r,
            "issue revision must be positive"@,
        ),
        transition is Ok && number >= 1 && expected_revision >= 1 ==> match issue {
            Err(e) => r == Err::<(Issue, IssueState), AppError>(e),
            Ok(i) => if i.revision != expected_revision {
                r matches Err(AppError::RevisionConflict { current_revision })
                    && current_revision == i.revision
            } else {
                match next_state(i.state, transition->Ok_0.kind()) {
                    Some(s) => r == Ok::<(Issue, IssueState), AppError>((i, s)),
                    None => r matches Err(AppError::InvalidTransition(m)) && m@ == "cannot "@
                        + transition_kind_name(transition->Ok_0.kind()) + " an issue in the "@
                        + issue_state_name(i.state) + " state"@,
                }
            },
        },
{
    let transition = match transition {
        Ok(t) => t,
        Err(e) => {
            return Err(e.into_app_error());
        },
    };
    check_issue_number(number)?;
    check_revision_argument(expected_revision)?;
    let issue = issue?;
    if issue.revision != expected_revision {
        return Err(AppError::RevisionConflict { current_revision: issue.revision });
    }
    let target = match issue.state.apply(&transition) {
        Ok(s) => s,
        Err(e) => {
            return Err(e.into_app_error());
        },
    };
    Ok((issue, target))
}

/// Checks an edit request before it reaches the store: a positive number
/// and revision, a valid patch, and the revision of the Issue that was read.
pub fn check_edit_request(
    number: i64,
    expected_revision: i64,
    patch: &IssuePatch,
    issue: Result<Issue, AppError>,
) -> (r: Result<Issue, AppError>)
    ensures
        number < 1 ==> fails_with_input(r, "issue number must be positive"@),
        number >= 1 && expected_revision < 1 ==> fails_with_input(
            r,
            "issue revision must be positive"@,
        ),
        number >= 1 && expected_revision >= 1 ==> match patch_error(*patch) {
            Some(m) => fails_with_input(r, m),
            None => match issue {
                Err(e) => r == Err::<Issue, AppError>(e),
                Ok(i) => if i.revision != expected_revision {
                    r matches Err(AppError::RevisionConflict { current_revision })
                        && current_revision == i.revision
                } else {
                    r == Ok::<Issue, AppError>(i)
                },
            },
        },
{
    check_issue_number(number)?;
    check_revision_argument(expected_revision)?;
    patch.validate()?;
    let issue = issue?;
    if issue.revision != expected_revision {
        return Err(AppError::RevisionConflict { current_revision: issue.revision });
    }
    Ok(issue)
}

/// Checks a comment request: a positive number and a valid body.
pub fn check_comment_request(number: i64, body: &str) -> (r: Result<(), AppError>)
    ensures
        number < 1 ==> fails_with_input(r, "issue number must be positive"@),
        number >= 1 ==> match comment_body_error(body@) {
            Some(m) => fails_with_input(r, m),
            None => r is Ok,
        },
{
    check_issue_number(number)?;
    validate_comment_body(body)
}

/// The first problem, if any, of a decision request's input.
pub open spec fn decision_input_error(number: i64, input: DecisionRequestInput) -> Option<Seq<char>> {
    let text = |name: Seq<char>, value: String| if is_blank(value@) {
        Some(name + " must not be empty"@)
    } else {
        None
    };
    if number < 1 {
        Some("issue number must be positive"@)
    } else if text("decision question"@, input.question) is Some {
        text("decision question"@, input.question)
    } else if text("decision blocker"@, input.blocker) is Some {
        text("decision blocker"@, input.blocker)
    } else if input.options@.len() < 2 {
        Some("decision options must contain at least two choices"@)
    } else if first_blank_option(input.options@) is Some {
        Some(
            "decision option "@ + crate::text::int_decimal(first_blank_option(input.options@)->0 + 1)
                + " must not be empty"@,
        )
    } else if text("decision recommendation"@, input.recommendation) is Some {
        text("decision recommendation"@, input.recommendation)
    } else if text("decision resume condition"@, input.resume_condition) is Some {
        text("decision resume condition"@, input.resume_condition)
    } else {
        text("decision background"@, input.background)
    }
}

/// Checks a decision request before it reaches the store, in the order in
/// which its problems are reported.
pub fn check_decision_request_input(number: i64, input: &DecisionRequestInput) -> (r: Result<
    (),
    AppError,
>)
    ensures
        match decision_input_error(number, *input) {
            Some(m) => fails_with_input(r, m),
            None => r is Ok,
        },
{
    check_issue_number(number)?;
    validate_decision_text("decision question", input.question.as_str())?;
    validate_decision_text("decision blocker", input.blocker.as_str())?;
    validate_decision_options(&input.options)?;
    validate_decision_text("decision recommendation", input.recommendation.as_str())?;
    validate_decision_text("decision resume condition", input.resume_condition.as_str())?;
    validate_decision_text("decision background", input.background.as_str())?;
    Ok(())
}

/// The value of a UUID in its text forms, as the `uuid` crate reads it.
pub uninterp spec fn uuid_from_text(text: Seq<char>) -> Option<u128>;

/// Reads a UUID with `uuid::Uuid::parse_str`; the result depends on the
/// text alone.
#[verifier::external_body]
fn parse_uuid(text: &str) -> (r: Option<u128>)
    ensures
        r == uuid_from_text(text@),
{
    match uuid::Uuid::parse_str(text) {
        Ok(u) => Some(u.as_u128()),
        Err(_) => None,
    }
}

/// Reads the id of a decision request: a UUID in one of its text forms.
pub fn decision_request_id(request_id: &str) -> (r: Result<u128, AppError>)
    ensures
        match uuid_from_text(request_id@) {
            Some(id) => r == Ok::<u128, AppError>(id),
            None => fails_with_input(r, "decision request id must be a UUID"@),
        },
{
    match parse_uuid(request_id) {
        Some(id) => Ok(id),
        None => Err(invalid_input("decision request id must be a UUID")),
    }
}

/// The outcome of a decision resolution request whose id reads as
/// `request_id`: the id, or the message of the first problem.
pub open spec fn resolution_request_spec(
    request_id: Option<u128>,
    expected_revision: Option<i64>,
    answer: Seq<char>,
) -> Result<u128, Seq<char>> {
    if request_id is None {
        Err("decision request id must be a UUID"@)
    } else if expected_revision matches Some(v) && v < 1 {
        Err("issue revision must be positive"@)
    } else if is_blank(answer) {
        Err("decision answer"@ + " must not be empty"@)
    } else {
        Ok(request_id->0)
    }
}

/// `r` is the outcome that `spec` describes, an error being invalid input.
pub open spec fn resolution_result_is(r: Result<u128, AppError>, spec: Result<u128, Seq<char>>) -> bool {
    match spec {
        Ok(id) => r == Ok::<u128, AppError>(id),
        Err(m) => fails_with_input(r, m),
    }
}

/// Checks a decision resolution request, given what the request id reads
/// as: a UUID, a positive expected revision if any, and an answer.
pub fn check_resolution_request(request_id: Option<u128>, expected_revision: Option<i64>, answer: &str) -> (r:
    Result<u128, AppError>)
    ensures
        resolution_result_is(r, resolution_request_spec(request_id, expected_revision, answer@)),
{
    let id = match request_id {
        Some(id) => id,
        None => {
            return Err(invalid_input("decision request id must be a UUID"));
        },
    };
    if let Some(v) = expected_revision {
        if v < 1 {
            return Err(invalid_input("issue revision must be positive"));
        }
    }
    validate_decision_text("decision answer", answer)?;
    Ok(id)
}

/// Reads the request id of a decision resolution and checks the request.
pub fn check_decision_resolution_request(request_id: &str, expected_revision: Option<i64>, answer: &str) -> (r:
    Result<u128, AppError>)
    ensures
        resolution_result_is(
            r,
            resolution_request_spec(uuid_from_text(request_id@), expected_revision, answer@),
        ),
{
    let parsed = parse_uuid(request_id);
    check_resolution_request(parsed, expected_revision, answer)
}

/// The first problem, if any, of an audit listing's filter.
pub open spec fn audit_filter_error(
    operation: Option<Seq<char>>,
    outcome: Option<Seq<char>>,
    kind: Option<Seq<char>>,
    after: Option<i64>,
    before: Option<i64>,
) -> Option<Seq<char>> {
    if operation matches Some(o) && is_blank(o) {
        Some("audit operation must not be empty"@)
    } else if outcome matches Some(o) && o != "success"@ && o != "failure"@ {
        Some("audit outcome must be success or failure"@)
    } else if kind matches Some(k) && k != "agent"@ && k != "human"@ && k != "system"@ {
        Some("audit kind must be agent, human, or system"@)
    } else if after matches Some(a) && before matches Some(b) && a > b {
        Some("audit --after must not be later than --before"@)
    } else {
        None
    }
}

/// Checks the filter of an audit listing; times are nanoseconds.
pub fn check_audit_filter(
    operation: Option<&str>,
    outcome: Option<&str>,
    kind: Option<&str>,
    after: Option<i64>,
    before: Option<i64>,
) -> (r: Result<(), AppError>)
    ensures
        match audit_filter_error(
            match operation {
                Some(o) => Some(o@),
                None => None,
            },
            match outcome {
                Some(o) => Some(o@),
                None => None,
            },
            match kind {
                Some(k) => Some(k@),
                None => None,
            },
            after,
            before,
        ) {
            Some(m) => fails_with_input(r, m),
            None => r is Ok,
        },
{
    if let Some(o) = operation {
        if is_blank_str(o) {
            return Err(invalid_input("audit operation must not be empty"));
        }
    }
    if let Some(o) = outcome {
        if !str_equals(o, "success") && !str_equals(o, "failure") {
            return Err(invalid_input("audit outcome must be success or failure"));
        }
    }
    if let Some(k) = kind {
        if !str_equals(k, "agent") && !str_equals(k, "human") && !str_equals(k, "system") {
            return Err(invalid_input("audit kind must be agent, human, or system"));
        }
    }
    if let (Some(a), Some(b)) = (after, before) {
        if a > b {
            return Err(invalid_input("audit --after must not be later than --before"));
        }
    }
    Ok(())
}

/// `items` lists the Issue `id`.
pub open spec fn lists_issue(items: Seq<IssueListItem>, id: u128) -> bool {
    exists|i: int| 0 <= i < items.len() && (#[trigger] items[i]).issue.id == id
}

fn find_issue(items: &Vec<IssueListItem>, id: u128) -> (b: bool)
    ensures
        b == lists_issue(items@, id),
{
    let mut i: usize = 0;
    while i < items.len()
        invariant
            i <= items.len(),
            forall|j: int| 0 <= j < i ==> (#[trigger] items@[j]).issue.id != id,
        decreases items.len() - i,
    {
        if items[i].issue.id == id {
            assert(items@[i as int].issue.id == id);
            return true;
        }
        i = i + 1;
    }
    false
}

/// Of the Issues not waiting for a human, the blocked ones.
pub open spec fn blocked_lane(attention: Seq<IssueListItem>) -> spec_fn(IssueListItem) -> bool {
    |it: IssueListItem| !lists_issue(attention, it.issue.id) && it.issue.state == IssueState::Blocked
}

/// Of the Issues not waiting for a human, the finished ones.
pub open spec fn completed_lane(attention: Seq<IssueListItem>) -> spec_fn(IssueListItem) -> bool {
    |it: IssueListItem|
        !lists_issue(attention, it.issue.id) && (it.issue.state == IssueState::Done
            || it.issue.state == IssueState::Cancelled)
}

/// Of the Issues not waiting for a human, the open ones that are not stale.
pub open spec fn active_lane(attention: Seq<IssueListItem>, stale: Seq<IssueListItem>) -> spec_fn(
    IssueListItem,
) -> bool {
    |it: IssueListItem|
        !lists_issue(attention, it.issue.id) && (it.issue.state == IssueState::Todo
            || it.issue.state == IssueState::InProgress) && !lists_issue(stale, it.issue.id)
}

proof fn lemma_filter_step(s: Seq<IssueListItem>, k: int, p: spec_fn(IssueListItem) -> bool)
    requires
        0 <= k < s.len(),
    ensures
        s.take(k + 1).filter(p) == if p(s[k]) {
            s.take(k).filter(p).push(s[k])
        } else {
            s.take(k).filter(p)
        },
{
    let t = s.take(k + 1);
    assert(t.drop_last() =~= s.take(k));
    assert(t.last() == s[k]);
    reveal(Seq::filter);
}

/// The supervision view: the Issues that need a human first, then the stale
/// ones; of the rest, blocked, recently finished, and active work that is
/// not stale. Each list keeps the order of `issues`.
pub fn build_status(
    issues: Vec<IssueListItem>,
    stale: Vec<IssueListItem>,
    attention: Vec<IssueListItem>,
) -> (s: Status)
    ensures
        s.attention@ == attention@,
        s.stale@ == stale@,
        s.blocked@ == issues@.filter(blocked_lane(attention@)),
        s.recently_completed@ == issues@.filter(completed_lane(attention@)),
        s.active@ == issues@.filter(active_lane(attention@, stale@)),
{
    let ghost orig = issues@;
    let mut rest = issues;
    let mut blocked: Vec<IssueListItem> = Vec::new();
    let mut completed: Vec<IssueListItem> = Vec::new();
    let mut active: Vec<IssueListItem> = Vec::new();
    let ghost mut k: int = 0;
    while rest.len() > 0
        invariant
            0 <= k <= orig.len(),
            rest@ == orig.skip(k),
            blocked@ == orig.take(k).filter(blocked_lane(attention@)),
            completed@ == orig.take(k).filter(completed_lane(attention@)),
            active@ == orig.take(k).filter(active_lane(attention@, stale@)),
        decreases rest.len(),
    {
        let item = rest.remove(0);
        proof {
            assert(item == orig[k]);
            lemma_filter_step(orig, k, blocked_lane(attention@));
            lemma_filter_step(orig, k, completed_lane(attention@));
            lemma_filter_step(orig, k, active_lane(attention@, stale@));
        }
        let in_attention = find_issue(&attention, item.issue.id);
        if !in_attention {
            match item.issue.state {
                IssueState::Blocked => {
                    blocked.push(item);
                },
                IssueState::Done | IssueState::Cancelled => {
                    completed.push(item);
                },
                IssueState::Todo | IssueState::InProgress => {
                    if !find_issue(&stale, item.issue.id) {
                        active.push(item);
                    }
                },
            }
        }
        proof {
            k = k + 1;
            assert(rest@ =~= orig.skip(k));
        }
    }
    proof {
        assert(orig.take(k) =~= orig);
    }
    Status { attention, stale, blocked, recently_completed: completed, active }
}

/// The lanes of the status view split the Issues that wait for no human:
/// each such Issue that is not stale is in exactly one of blocked, recently
/// completed and active, chosen by its state (blocked; done or cancelled;
/// todo or in progress), and an Issue that waits for a human is in none.
pub proof fn law_status_lanes_partition(
    issues: Seq<IssueListItem>,
    stale: Seq<IssueListItem>,
    attention: Seq<IssueListItem>,
    i: int,
)
    requires
        0 <= i < issues.len(),
    ensures
        ({
            let it = issues[i];
            let a = issues.filter(active_lane(attention, stale)).contains(it);
            let b = issues.filter(blocked_lane(attention)).contains(it);
            let c = issues.filter(completed_lane(attention)).contains(it);
            &&& !lists_issue(attention, it.issue.id) && !lists_issue(stale, it.issue.id) ==> (a || b || c)
            &&& !(a && b) && !(a && c) && !(b && c)
            &&& lists_issue(attention, it.issue.id) ==> !a && !b && !c
            &&& lists_issue(stale, it.issue.id) ==> !a
            &&& a ==> it.issue.state == IssueState::Todo || it.issue.state == IssueState::InProgress
            &&& b ==> it.issue.state == IssueState::Blocked
            &&& c ==> it.issue.state == IssueState::Done || it.issue.state == IssueState::Cancelled
        }),
{
    let it = issues[i];
    let pa = active_lane(attention, stale);
    let pb = blocked_lane(attention);
    let pc = completed_lane(attention);
    lemma_lane_member(issues, pa, it);
    lemma_lane_member(issues, pb, it);
    lemma_lane_member(issues, pc, it);
    if pa(it) {
        issues.lemma_filter_contains(pa, i);
    }
    if pb(it) {
        issues.lemma_filter_contains(pb, i);
    }
    if pc(it) {
        issues.lemma_filter_contains(pc, i);
    }
}

/// What a lane holds satisfies the lane's test.
proof fn lemma_lane_member(s: Seq<IssueListItem>, p: spec_fn(IssueListItem) -> bool, it: IssueListItem)
    ensures
        s.filter(p).contains(it) ==> p(it),
{
    if s.filter(p).contains(it) {
        let j = choose|j: int| 0 <= j < s.filter(p).len() && s.filter(p)[j] == it;
        s.lemma_filter_pred(p, j);
    }
}

} // verus!
