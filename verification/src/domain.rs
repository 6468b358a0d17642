//! The issue domain: states and their guarded transitions, decisions,
//! references and the validation rules of every input.
use crate::error::{
    conflict, fails_with_input, fails_with_internal, internal, invalid_input, AppError,
};
use crate::json::{int_member, json_str, member, object_members, text_member, text_object, Json};
use crate::text::{
    char_count, chars_of, concat, concat3, i64_to_decimal, u64_to_decimal, nat_decimal, int_decimal, is_blank, is_blank_str,
    parse_i64, parse_i64_chars, parse_i64_spec, push_str, string_from_chars, str_equals,
};
use vstd::prelude::*;
use vstd::string::StringSliceAdditionalSpecFns;
use vstd::utf8::encode_utf8;

verus! {

/// Who initiated an operation.
#[derive(Clone, Copy, Debug, PartialEq, Eq, Structural)]
pub enum InitiatorKind {
    Agent,
    Human,
    System,
}

pub open spec fn initiator_kind_name(k: InitiatorKind) -> Seq<char> {
    match k {
        InitiatorKind::Agent => "agent"@,
        InitiatorKind::Human => "human"@,
        InitiatorKind::System => "system"@,
    }
}

impl InitiatorKind {
    pub fn as_str(self) -> (s: &'static str)
        ensures
            s@ == initiator_kind_name(self),
    {
        match self {
            InitiatorKind::Agent => "agent",
            InitiatorKind::Human => "human",
            InitiatorKind::System => "system",
        }
    }
}

/// The identity under which an operation runs: an agent session or a human operator.
#[derive(Clone, Debug)]
pub struct ExecutionContext {
    pub kind: InitiatorKind,
    pub agent: Option<String>,
    pub session_id: Option<String>,
    pub operator: Option<String>,
}

/// The name that identifies the initiator of a context.
pub open spec fn spec_initiator_name(c: ExecutionContext) -> Option<Seq<char>> {
    match c.kind {
        InitiatorKind::Agent => match c.agent {
            Some(a) => Some(a@),
            None => None,
        },
        InitiatorKind::Human => match c.operator {
            Some(o) => Some(o@),
            None => None,
        },
        InitiatorKind::System => None,
    }
}

/// An identity value is accepted when it is not blank and has at most 200 characters.
pub open spec fn identity_value_error(name: Seq<char>, value: Seq<char>) -> Option<Seq<char>> {
    if is_blank(value) {
        Some(name + " must not be empty"@)
    } else if value.len() > 200 {
        Some(name + " must contain at most 200 Unicode scalar values"@)
    } else {
        None
    }
}

impl ExecutionContext {
    pub fn initiator_name(&self) -> (n: Option<&str>)
        ensures
            match n {
                Some(s) => spec_initiator_name(*self) == Some(s@),
                None => spec_initiator_name(*self) is None,
            },
    {
        match self.kind {
            InitiatorKind::Agent => match &self.agent {
                Some(a) => Some(a.as_str()),
                None => None,
            },
            InitiatorKind::Human => match &self.operator {
                Some(o) => Some(o.as_str()),
                None => None,
            },
            InitiatorKind::System => None,
        }
    }

    /// Checks one identity value read from the environment.
    pub fn validate_value(name: &str, value: String) -> (r: Result<String, AppError>)
        ensures
            match identity_value_error(name@, value@) {
                Some(m) => fails_with_input(r, m),
                None => r == Ok::<String, AppError>(value),
            },
    {
        if is_blank_str(value.as_str()) {
            return Err(AppError::InvalidInput(concat(name, " must not be empty")));
        }
        if char_count(value.as_str()) > 200 {
            return Err(
                AppError::InvalidInput(
                    concat(name, " must contain at most 200 Unicode scalar values"),
                ),
            );
        }
        Ok(value)
    }

    /// Builds the context from the identity values in the environment:
    /// `BETTR_AGENT` and `BETTR_SESSION_ID` make an agent context; otherwise
    /// `BETTR_OPERATOR`, or the operating-system user name, makes a human one.
    pub fn resolve_from(
        agent: Option<String>,
        session_id: Option<String>,
        operator: Option<String>,
        username: String,
    ) -> (r: Result<Self, AppError>)
        ensures
            agent is Some ==> match identity_value_error("BETTR_AGENT"@, agent->0@) {
                Some(m) => fails_with_input(r, m),
                None => match session_id {
                    Some(s) => match identity_value_error("BETTR_SESSION_ID"@, s@) {
                        Some(m) => fails_with_input(r, m),
                        None => r matches Ok(c) && c.kind == InitiatorKind::Agent && c.agent
                            == agent && c.session_id == Some(s) && c.operator is None,
                    },
                    None => r matches Ok(c) && c.kind == InitiatorKind::Agent && c.agent == agent
                        && c.session_id is None && c.operator is None,
                },
            },
            agent is None ==> match operator {
                Some(o) => match identity_value_error("BETTR_OPERATOR"@, o@) {
                    Some(m) => fails_with_input(r, m),
                    None => r matches Ok(c) && c.kind == InitiatorKind::Human && c.operator == Some(
                        o,
                    ) && c.agent is None && c.session_id is None,
                },
                None => match identity_value_error("OS username"@, username@) {
                    Some(m) => fails_with_input(r, m),
                    None => r matches Ok(c) && c.kind == InitiatorKind::Human && c.operator == Some(
                        username,
                    ) && c.agent is None && c.session_id is None,
                },
            },
    {
        if let Some(agent) = agent {
            let agent = Self::validate_value("BETTR_AGENT", agent)?;
            let session_id = match session_id {
                Some(s) => Some(Self::validate_value("BETTR_SESSION_ID", s)?),
                None => None,
            };
            return Ok(
                ExecutionContext {
                    kind: InitiatorKind::Agent,
                    agent: Some(agent),
                    session_id,
                    operator: None,
                },
            );
        }
        let operator = match operator {
            Some(operator) => Self::validate_value("BETTR_OPERATOR", operator)?,
            None => Self::validate_value("OS username", username)?,
        };
        Ok(
            ExecutionContext {
                kind: InitiatorKind::Human,
                agent: None,
                session_id: None,
                operator: Some(operator),
            },
        )
    }
}

/// A project that groups Issues.
#[derive(Clone, Debug)]
pub struct Project {
    /// The project's UUID as a 128-bit number.
    pub id: u128,
    pub name: String,
    pub archived: bool,
    /// Nanoseconds since the Unix epoch, UTC.
    pub created_at: i64,
}

/// The five states of an Issue.
#[derive(Clone, Copy, Debug, PartialEq, Eq, Structural)]
pub enum IssueState {
    Todo,
    InProgress,
    Blocked,
    Done,
    Cancelled,
}

pub open spec fn issue_state_name(s: IssueState) -> Seq<char> {
    match s {
        IssueState::Todo => "todo"@,
        IssueState::InProgress => "in_progress"@,
        IssueState::Blocked => "blocked"@,
        IssueState::Done => "done"@,
        IssueState::Cancelled => "cancelled"@,
    }
}

/// The state whose name is `value`, if any.
pub open spec fn parse_issue_state(value: Seq<char>) -> Option<IssueState> {
    if value == "todo"@ {
        Some(IssueState::Todo)
    } else if value == "in_progress"@ {
        Some(IssueState::InProgress)
    } else if value == "blocked"@ {
        Some(IssueState::Blocked)
    } else if value == "done"@ {
        Some(IssueState::Done)
    } else if value == "cancelled"@ {
        Some(IssueState::Cancelled)
    } else {
        None
    }
}

/// The kind of a transition, without its metadata.
#[derive(Clone, Copy, Debug, PartialEq, Eq, Structural)]
pub enum TransitionKind {
    Start,
    Block,
    Resume,
    Complete,
    Cancel,
    Reopen,
}

/// The guarded transition table: the state that a transition of the given
/// kind leads to from `from`, or `None` where the transition is not allowed.
pub open spec fn next_state(from: IssueState, kind: TransitionKind) -> Option<IssueState> {
    match (from, kind) {
        (IssueState::Todo, TransitionKind::Start) => Some(IssueState::InProgress),
        (IssueState::InProgress, TransitionKind::Block) => Some(IssueState::Blocked),
        (IssueState::Blocked, TransitionKind::Resume) => Some(IssueState::InProgress),
        (IssueState::InProgress, TransitionKind::Complete) => Some(IssueState::Done),
        (IssueState::InProgress, TransitionKind::Cancel) => Some(IssueState::Cancelled),
        (IssueState::Blocked, TransitionKind::Cancel) => Some(IssueState::Cancelled),
        (IssueState::Done, TransitionKind::Reopen) => Some(IssueState::Todo),
        (IssueState::Cancelled, TransitionKind::Reopen) => Some(IssueState::Todo),
        _ => None,
    }
}

pub open spec fn transition_kind_name(k: TransitionKind) -> Seq<char> {
    match k {
        TransitionKind::Start => "start"@,
        TransitionKind::Block => "block"@,
        TransitionKind::Resume => "resume"@,
        TransitionKind::Complete => "complete"@,
        TransitionKind::Cancel => "cancel"@,
        TransitionKind::Reopen => "reopen"@,
    }
}

pub open spec fn transition_kind_event_type(k: TransitionKind) -> Seq<char> {
    match k {
        TransitionKind::Start => "issue_started"@,
        TransitionKind::Block => "issue_blocked"@,
        TransitionKind::Resume => "issue_resumed"@,
        TransitionKind::Complete => "issue_completed"@,
        TransitionKind::Cancel => "issue_cancelled"@,
        TransitionKind::Reopen => "issue_reopened"@,
    }
}

pub open spec fn transition_kind_operation(k: TransitionKind) -> Seq<char> {
    match k {
        TransitionKind::Start => "issue_start"@,
        TransitionKind::Block => "issue_block"@,
        TransitionKind::Resume => "issue_resume"@,
        TransitionKind::Complete => "issue_complete"@,
        TransitionKind::Cancel => "issue_cancel"@,
        TransitionKind::Reopen => "issue_reopen"@,
    }
}

pub open spec fn transition_kind_changed_fields(k: TransitionKind) -> Seq<Seq<char>> {
    match k {
        TransitionKind::Start | TransitionKind::Resume => seq!["state"@],
        TransitionKind::Block => seq!["state"@, "reason"@, "wait_kind"@],
        TransitionKind::Complete => seq!["state"@, "summary"@, "verification"@],
        TransitionKind::Cancel | TransitionKind::Reopen => seq!["state"@, "reason"@],
    }
}

/// The views of a list of static strings.
pub open spec fn str_views(v: Seq<&'static str>) -> Seq<Seq<char>> {
    v.map_values(|s: &'static str| s@)
}

impl IssueState {
    pub fn as_str(self) -> (s: &'static str)
        ensures
            s@ == issue_state_name(self),
    {
        match self {
            IssueState::Todo => "todo",
            IssueState::InProgress => "in_progress",
            IssueState::Blocked => "blocked",
            IssueState::Done => "done",
            IssueState::Cancelled => "cancelled",
        }
    }

    /// Reads a state stored in the database.
    pub fn parse(value: &str) -> (r: Result<Self, AppError>)
        ensures
            match parse_issue_state(value@) {
                Some(s) => r == Ok::<IssueState, AppError>(s),
                None => fails_with_internal(r, "invalid issue state in database: "@ + value@),
            },
    {
        if str_equals(value, "todo") {
            Ok(IssueState::Todo)
        } else if str_equals(value, "in_progress") {
            Ok(IssueState::InProgress)
        } else if str_equals(value, "blocked") {
            Ok(IssueState::Blocked)
        } else if str_equals(value, "done") {
            Ok(IssueState::Done)
        } else if str_equals(value, "cancelled") {
            Ok(IssueState::Cancelled)
        } else {
            Err(AppError::Internal(concat("invalid issue state in database: ", value)))
        }
    }

    /// Applies a transition through the guarded transition table.
    pub fn apply(&self, transition: &Transition) -> (r: Result<Self, DomainError>)
        ensures
            match next_state(*self, transition.kind()) {
                Some(s) => r == Ok::<IssueState, DomainError>(s),
                None => r matches Err(DomainError::InvalidTransition { from, transition: name })
                    && from == *self && name@ == transition_kind_name(transition.kind()),
            },
    {
        match (*self, transition) {
            (IssueState::Todo, Transition::Start) => Ok(IssueState::InProgress),
            (IssueState::InProgress, Transition::Block(_)) => Ok(IssueState::Blocked),
            (IssueState::Blocked, Transition::Resume) => Ok(IssueState::InProgress),
            (IssueState::InProgress, Transition::Complete(_)) => Ok(IssueState::Done),
            (IssueState::InProgress, Transition::Cancel(_)) => Ok(IssueState::Cancelled),
            (IssueState::Blocked, Transition::Cancel(_)) => Ok(IssueState::Cancelled),
            (IssueState::Done, Transition::Reopen(_)) => Ok(IssueState::Todo),
            (IssueState::Cancelled, Transition::Reopen(_)) => Ok(IssueState::Todo),
            _ => Err(DomainError::InvalidTransition { from: *self, transition: transition.name() }),
        }
    }
}

/// Why a blocked Issue waits.
#[derive(Clone, Copy, Debug, PartialEq, Eq, Structural)]
pub enum WaitKind {
    Human,
    Dependency,
    External,
}

pub open spec fn wait_kind_name(k: WaitKind) -> Seq<char> {
    match k {
        WaitKind::Human => "human"@,
        WaitKind::Dependency => "dependency"@,
        WaitKind::External => "external"@,
    }
}

impl WaitKind {
    pub fn as_str(self) -> (s: &'static str)
        ensures
            s@ == wait_kind_name(self),
    {
        match self {
            WaitKind::Human => "human",
            WaitKind::Dependency => "dependency",
            WaitKind::External => "external",
        }
    }
}

#[derive(Clone, Debug)]
pub struct BlockTransition {
    pub reason: String,
    pub wait_kind: WaitKind,
}

#[derive(Clone, Debug)]
pub struct CompleteTransition {
    pub summary: String,
    pub verification: String,
}

#[derive(Clone, Debug)]
pub struct ReasonTransition {
    pub reason: String,
}

/// A state change requested for an Issue, with the metadata that it records.
#[derive(Clone, Debug)]
pub enum Transition {
    Start,
    Block(BlockTransition),
    Resume,
    Complete(CompleteTransition),
    Cancel(ReasonTransition),
    Reopen(ReasonTransition),
}

/// The metadata of a transition is accepted when it is not blank.
pub open spec fn metadata_error(name: Seq<char>, value: Seq<char>) -> Option<Seq<char>> {
    if is_blank(value) {
        Some(name + " must not be empty"@)
    } else {
        None
    }
}

/// `r` failed with `InvalidMetadata` carrying exactly `message`.
pub open spec fn fails_with_metadata<T>(r: Result<T, DomainError>, message: Seq<char>) -> bool {
    r matches Err(DomainError::InvalidMetadata(m)) && m@ == message
}

impl Transition {
    pub open spec fn kind(&self) -> TransitionKind {
        match self {
            Transition::Start => TransitionKind::Start,
            Transition::Block(_) => TransitionKind::Block,
            Transition::Resume => TransitionKind::Resume,
            Transition::Complete(_) => TransitionKind::Complete,
            Transition::Cancel(_) => TransitionKind::Cancel,
            Transition::Reopen(_) => TransitionKind::Reopen,
        }
    }

    pub fn block(reason: String, wait_kind: WaitKind) -> (r: Result<Self, DomainError>)
        ensures
            match metadata_error("block reason"@, reason@) {
                Some(m) => fails_with_metadata(r, m),
                None => r matches Ok(Transition::Block(b)) && b.reason == reason && b.wait_kind
                    == wait_kind,
            },
    {
        validate_transition_metadata("block reason", &reason)?;
        Ok(Transition::Block(BlockTransition { reason, wait_kind }))
    }

    pub fn complete(summary: String, verification: String) -> (r: Result<Self, DomainError>)
        ensures
            match metadata_error("completion summary"@, summary@) {
                Some(m) => fails_with_metadata(r, m),
                None => match metadata_error("completion verification"@, verification@) {
                    Some(m) => fails_with_metadata(r, m),
                    None => r matches Ok(Transition::Complete(c)) && c.summary == summary
                        && c.verification == verification,
                },
            },
    {
        validate_transition_metadata("completion summary", &summary)?;
        validate_transition_metadata("completion verification", &verification)?;
        Ok(Transition::Complete(CompleteTransition { summary, verification }))
    }

    pub fn cancel(reason: String) -> (r: Result<Self, DomainError>)
        ensures
            match metadata_error("cancellation reason"@, reason@) {
                Some(m) => fails_with_metadata(r, m),
                None => r matches Ok(Transition::Cancel(c)) && c.reason == reason,
            },
    {
        validate_transition_metadata("cancellation reason", &reason)?;
        Ok(Transition::Cancel(ReasonTransition { reason }))
    }

    pub fn reopen(reason: String) -> (r: Result<Self, DomainError>)
        ensures
            match metadata_error("reopen reason"@, reason@) {
                Some(m) => fails_with_metadata(r, m),
                None => r matches Ok(Transition::Reopen(c)) && c.reason == reason,
            },
    {
        validate_transition_metadata("reopen reason", &reason)?;
        Ok(Transition::Reopen(ReasonTransition { reason }))
    }

    pub fn name(&self) -> (s: &'static str)
        ensures
            s@ == transition_kind_name(self.kind()),
    {
        match self {
            Transition::Start => "start",
            Transition::Block(_) => "block",
            Transition::Resume => "resume",
            Transition::Complete(_) => "complete",
            Transition::Cancel(_) => "cancel",
            Transition::Reopen(_) => "reopen",
        }
    }

    pub fn event_type(&self) -> (s: &'static str)
        ensures
            s@ == transition_kind_event_type(self.kind()),
    {
        match self {
            Transition::Start => "issue_started",
            Transition::Block(_) => "issue_blocked",
            Transition::Resume => "issue_resumed",
            Transition::Complete(_) => "issue_completed",
            Transition::Cancel(_) => "issue_cancelled",
            Transition::Reopen(_) => "issue_reopened",
        }
    }

    pub fn operation(&self) -> (s: &'static str)
        ensures
            s@ == transition_kind_operation(self.kind()),
    {
        match self {
            Transition::Start => "issue_start",
            Transition::Block(_) => "issue_block",
            Transition::Resume => "issue_resume",
            Transition::Complete(_) => "issue_complete",
            Transition::Cancel(_) => "issue_cancel",
            Transition::Reopen(_) => "issue_reopen",
        }
    }

    pub fn changed_fields(&self) -> (v: Vec<&'static str>)
        ensures
            str_views(v@) == transition_kind_changed_fields(self.kind()),
    {
        let v = match self {
            Transition::Start | Transition::Resume => vec!["state"],
            Transition::Block(_) => vec!["state", "reason", "wait_kind"],
            Transition::Complete(_) => vec!["state", "summary", "verification"],
            Transition::Cancel(_) | Transition::Reopen(_) => vec!["state", "reason"],
        };
        assert(str_views(v@) =~= transition_kind_changed_fields(self.kind()));
        v
    }
}

/// A failed domain rule.
#[derive(Clone, Debug)]
pub enum DomainError {
    InvalidMetadata(String),
    InvalidTransition { from: IssueState, transition: &'static str },
}

pub open spec fn spec_domain_message(e: DomainError) -> Seq<char> {
    match e {
        DomainError::InvalidMetadata(m) => m@,
        DomainError::InvalidTransition { from, transition } => "cannot "@ + transition@
            + " an issue in the "@ + issue_state_name(from) + " state"@,
    }
}

impl DomainError {
    /// The message, as the error's `Display` writes it.
    pub fn message(&self) -> (m: String)
        ensures
            m@ == spec_domain_message(*self),
    {
        match self {
            DomainError::InvalidMetadata(m) => m.clone(),
            DomainError::InvalidTransition { from, transition } => {
                let mut m = concat3("cannot ", transition, " an issue in the ");
                push_str(&mut m, from.as_str());
                push_str(&mut m, " state");
                m
            },
        }
    }
}

/// The application error that a domain error becomes.
pub open spec fn spec_app_error_of(e: DomainError, result: AppError) -> bool {
    match e {
        DomainError::InvalidMetadata(m) => result matches AppError::InvalidInput(n) && n@ == m@,
        DomainError::InvalidTransition { .. } => result matches AppError::InvalidTransition(n)
            && n@ == spec_domain_message(e),
    }
}

impl DomainError {
    /// Metadata errors are invalid input; transition errors keep their message.
    pub fn into_app_error(self) -> (r: AppError)
        ensures
            spec_app_error_of(self, r),
    {
        match self {
            DomainError::InvalidMetadata(message) => AppError::InvalidInput(message),
            DomainError::InvalidTransition { .. } => AppError::InvalidTransition(self.message()),
        }
    }
}

fn validate_transition_metadata(name: &str, value: &String) -> (r: Result<(), DomainError>)
    ensures
        match metadata_error(name@, value@) {
            Some(m) => fails_with_metadata(r, m),
            None => r is Ok,
        },
{
    if is_blank_str(value.as_str()) {
        return Err(DomainError::InvalidMetadata(concat(name, " must not be empty")));
    }
    Ok(())
}


/// A human's answer to a decision request, as the next state and its metadata.
#[derive(Clone, Debug)]
pub struct DecisionResolution {
    pub target_state: IssueState,
    pub transition: Option<Transition>,
}

/// The unchecked input of a decision resolution.
#[derive(Clone, Debug)]
pub struct DecisionResolutionInput {
    pub target_state: IssueState,
    pub summary: Option<String>,
    pub verification: Option<String>,
    pub reason: Option<String>,
    pub wait_kind: Option<WaitKind>,
}

/// The error, if any, with which a decision resolution to `target` is refused.
pub open spec fn resolution_error(
    target: IssueState,
    summary: Option<String>,
    verification: Option<String>,
    reason: Option<String>,
    wait_kind: Option<WaitKind>,
) -> Option<Seq<char>> {
    match target {
        IssueState::Todo => if summary is Some || verification is Some || reason is Some
            || wait_kind is Some {
            Some("decision resolution to todo does not accept transition metadata"@)
        } else {
            None
        },
        IssueState::Blocked => if summary is Some || verification is Some {
            Some("decision resolution to blocked does not accept summary or verification"@)
        } else if reason is None {
            Some("decision resolution to blocked requires --reason"@)
        } else if wait_kind is None {
            Some("decision resolution to blocked requires --wait-kind"@)
        } else {
            metadata_error("block reason"@, reason->0@)
        },
        IssueState::Done => if reason is Some || wait_kind is Some {
            Some("decision resolution to done does not accept reason or wait kind"@)
        } else if summary is None {
            Some("decision resolution to done requires --summary"@)
        } else if verification is None {
            Some("decision resolution to done requires --verification"@)
        } else if metadata_error("completion summary"@, summary->0@) is Some {
            metadata_error("completion summary"@, summary->0@)
        } else {
            metadata_error("completion verification"@, verification->0@)
        },
        IssueState::Cancelled => if summary is Some || verification is Some || wait_kind is Some {
            Some(
                "decision resolution to cancelled does not accept summary, verification, or wait kind"@,
            )
        } else if reason is None {
            Some("decision resolution to cancelled requires --reason"@)
        } else {
            metadata_error("cancellation reason"@, reason->0@)
        },
        IssueState::InProgress => None,
    }
}

pub open spec fn resolution_event_type(target: IssueState) -> Seq<char> {
    match target {
        IssueState::Todo => "decision_resolved"@,
        IssueState::Blocked => "issue_blocked"@,
        IssueState::Done => "issue_completed"@,
        IssueState::Cancelled => "issue_cancelled"@,
        IssueState::InProgress => "decision_resolved"@,
    }
}

pub open spec fn resolution_changed_fields(target: IssueState) -> Seq<Seq<char>> {
    match target {
        IssueState::Todo => seq!["decision"@, "state"@],
        IssueState::Blocked => seq!["decision"@, "state"@, "reason"@, "wait_kind"@],
        IssueState::Done => seq!["decision"@, "state"@, "summary"@, "verification"@],
        IssueState::Cancelled => seq!["decision"@, "state"@, "reason"@],
        IssueState::InProgress => seq!["decision"@, "state"@],
    }
}

impl DecisionResolutionInput {
    pub fn new(
        target_state: IssueState,
        summary: Option<String>,
        verification: Option<String>,
        reason: Option<String>,
        wait_kind: Option<WaitKind>,
    ) -> (r: Self)
        ensures
            r.target_state == target_state,
            r.summary == summary,
            r.verification == verification,
            r.reason == reason,
            r.wait_kind == wait_kind,
    {
        DecisionResolutionInput { target_state, summary, verification, reason, wait_kind }
    }

    pub fn target_state(&self) -> (s: IssueState)
        ensures
            s == self.target_state,
    {
        self.target_state
    }

    pub fn into_resolution(self) -> (r: Result<DecisionResolution, DomainError>)
        ensures
            self.target_state == IssueState::InProgress ==> (r matches Err(
                DomainError::InvalidTransition { from, transition },
            ) && from == IssueState::Blocked && transition@ == "decision_resolve"@),
            self.target_state != IssueState::InProgress ==> match resolution_error(
                self.target_state,
                self.summary,
                self.verification,
                self.reason,
                self.wait_kind,
            ) {
                Some(m) => fails_with_metadata(r, m),
                None => r matches Ok(d) && d.target_state == self.target_state
                    && resolution_matches(d, self.summary, self.verification, self.reason,
                    self.wait_kind),
            },
    {
        DecisionResolution::new(
            self.target_state,
            self.summary,
            self.verification,
            self.reason,
            self.wait_kind,
        )
    }
}

/// The transition that an accepted resolution records carries exactly its metadata.
pub open spec fn resolution_matches(
    d: DecisionResolution,
    summary: Option<String>,
    verification: Option<String>,
    reason: Option<String>,
    wait_kind: Option<WaitKind>,
) -> bool {
    match d.target_state {
        IssueState::Blocked => d.transition matches Some(Transition::Block(b)) && Some(b.reason)
            == reason && Some(b.wait_kind) == wait_kind,
        IssueState::Done => d.transition matches Some(Transition::Complete(c)) && Some(c.summary)
            == summary && Some(c.verification) == verification,
        IssueState::Cancelled => d.transition matches Some(Transition::Cancel(c)) && Some(c.reason)
            == reason,
        _ => d.transition is None,
    }
}

impl DecisionResolution {
    /// Checks the metadata that a resolution to `target_state` needs: none for
    /// `todo`, a reason and wait kind for `blocked`, a summary and verification
    /// for `done`, a reason for `cancelled`; `in_progress` is refused.
    pub fn new(
        target_state: IssueState,
        summary: Option<String>,
        verification: Option<String>,
        reason: Option<String>,
        wait_kind: Option<WaitKind>,
    ) -> (r: Result<Self, DomainError>)
        ensures
            target_state == IssueState::InProgress ==> (r matches Err(
                DomainError::InvalidTransition { from, transition },
            ) && from == IssueState::Blocked && transition@ == "decision_resolve"@),
            target_state != IssueState::InProgress ==> match resolution_error(
                target_state,
                summary,
                verification,
                reason,
                wait_kind,
            ) {
                Some(m) => fails_with_metadata(r, m),
                None => r matches Ok(d) && d.target_state == target_state && resolution_matches(
                    d,
                    summary,
                    verification,
                    reason,
                    wait_kind,
                ),
            },
    {
        let transition = match target_state {
            IssueState::Todo => {
                if summary.is_some() || verification.is_some() || reason.is_some()
                    || wait_kind.is_some() {
                    return Err(
                        DomainError::InvalidMetadata(
                            "decision resolution to todo does not accept transition metadata".to_owned(),
                        ),
                    );
                }
                None
            },
            IssueState::Blocked => {
                if summary.is_some() || verification.is_some() {
                    return Err(
                        DomainError::InvalidMetadata(
                            "decision resolution to blocked does not accept summary or verification".to_owned(),
                        ),
                    );
                }
                let reason = match reason {
                    Some(reason) => reason,
                    None => {
                        return Err(
                            DomainError::InvalidMetadata(
                                "decision resolution to blocked requires --reason".to_owned(),
                            ),
                        );
                    },
                };
                let wait_kind = match wait_kind {
                    Some(wait_kind) => wait_kind,
                    None => {
                        return Err(
                            DomainError::InvalidMetadata(
                                "decision resolution to blocked requires --wait-kind".to_owned(),
                            ),
                        );
                    },
                };
                Some(Transition::block(reason, wait_kind)?)
            },
            IssueState::Done => {
                if reason.is_some() || wait_kind.is_some() {
                    return Err(
                        DomainError::InvalidMetadata(
                            "decision resolution to done does not accept reason or wait kind".to_owned(),
                        ),
                    );
                }
                let summary = match summary {
                    Some(summary) => summary,
                    None => {
                        return Err(
                            DomainError::InvalidMetadata(
                                "decision resolution to done requires --summary".to_owned(),
                            ),
                        );
                    },
                };
                let verification = match verification {
                    Some(verification) => verification,
                    None => {
                        return Err(
                            DomainError::InvalidMetadata(
                                "decision resolution to done requires --verification".to_owned(),
                            ),
                        );
                    },
                };
                Some(Transition::complete(summary, verification)?)
            },
            IssueState::Cancelled => {
                if summary.is_some() || verification.is_some() || wait_kind.is_some() {
                    return Err(
                        DomainError::InvalidMetadata(
                            "decision resolution to cancelled does not accept summary, verification, or wait kind".to_owned(),
                        ),
                    );
                }
                let reason = match reason {
                    Some(reason) => reason,
                    None => {
                        return Err(
                            DomainError::InvalidMetadata(
                                "decision resolution to cancelled requires --reason".to_owned(),
                            ),
                        );
                    },
                };
                Some(Transition::cancel(reason)?)
            },
            IssueState::InProgress => {
                return Err(
                    DomainError::InvalidTransition {
                        from: IssueState::Blocked,
                        transition: "decision_resolve",
                    },
                );
            },
        };
        Ok(DecisionResolution { target_state, transition })
    }

    pub fn target_state(&self) -> (s: IssueState)
        ensures
            s == self.target_state,
    {
        self.target_state
    }

    pub fn event_type(&self) -> (s: &'static str)
        ensures
            s@ == resolution_event_type(self.target_state),
    {
        match self.target_state {
            IssueState::Todo => "decision_resolved",
            IssueState::Blocked => "issue_blocked",
            IssueState::Done => "issue_completed",
            IssueState::Cancelled => "issue_cancelled",
            IssueState::InProgress => "decision_resolved",
        }
    }

    pub fn changed_fields(&self) -> (v: Vec<&'static str>)
        ensures
            str_views(v@) == resolution_changed_fields(self.target_state),
    {
        let v = match self.target_state {
            IssueState::Todo => vec!["decision", "state"],
            IssueState::Blocked => vec!["decision", "state", "reason", "wait_kind"],
            IssueState::Done => vec!["decision", "state", "summary", "verification"],
            IssueState::Cancelled => vec!["decision", "state", "reason"],
            IssueState::InProgress => vec!["decision", "state"],
        };
        assert(str_views(v@) =~= resolution_changed_fields(self.target_state));
        v
    }
}


#[derive(Clone, Copy, Debug, PartialEq, Eq, Structural)]
pub enum Priority {
    Low,
    Medium,
    High,
    Critical,
}

#[derive(Clone, Copy, Debug, PartialEq, Eq, Structural)]
pub enum AssigneeKind {
    Human,
    Agent,
}

pub open spec fn assignee_kind_name(k: AssigneeKind) -> Seq<char> {
    match k {
        AssigneeKind::Human => "human"@,
        AssigneeKind::Agent => "agent"@,
    }
}

pub open spec fn parse_assignee_kind(value: Seq<char>) -> Option<AssigneeKind> {
    if value == "human"@ {
        Some(AssigneeKind::Human)
    } else if value == "agent"@ {
        Some(AssigneeKind::Agent)
    } else {
        None
    }
}

impl AssigneeKind {
    pub fn as_str(self) -> (s: &'static str)
        ensures
            s@ == assignee_kind_name(self),
    {
        match self {
            AssigneeKind::Human => "human",
            AssigneeKind::Agent => "agent",
        }
    }

    /// Reads an assignee kind stored in the database.
    pub fn parse(value: &str) -> (r: Result<Self, AppError>)
        ensures
            match parse_assignee_kind(value@) {
                Some(k) => r == Ok::<AssigneeKind, AppError>(k),
                None => fails_with_internal(r, "invalid assignee kind in database: "@ + value@),
            },
    {
        if str_equals(value, "human") {
            Ok(AssigneeKind::Human)
        } else if str_equals(value, "agent") {
            Ok(AssigneeKind::Agent)
        } else {
            Err(AppError::Internal(concat("invalid assignee kind in database: ", value)))
        }
    }
}

pub open spec fn priority_name(p: Priority) -> Seq<char> {
    match p {
        Priority::Low => "low"@,
        Priority::Medium => "medium"@,
        Priority::High => "high"@,
        Priority::Critical => "critical"@,
    }
}

pub open spec fn parse_priority(value: Seq<char>) -> Option<Priority> {
    if value == "low"@ {
        Some(Priority::Low)
    } else if value == "medium"@ {
        Some(Priority::Medium)
    } else if value == "high"@ {
        Some(Priority::High)
    } else if value == "critical"@ {
        Some(Priority::Critical)
    } else {
        None
    }
}

impl Priority {
    pub fn as_str(self) -> (s: &'static str)
        ensures
            s@ == priority_name(self),
    {
        match self {
            Priority::Low => "low",
            Priority::Medium => "medium",
            Priority::High => "high",
            Priority::Critical => "critical",
        }
    }

    /// Reads a priority stored in the database.
    pub fn parse(value: &str) -> (r: Result<Self, AppError>)
        ensures
            match parse_priority(value@) {
                Some(p) => r == Ok::<Priority, AppError>(p),
                None => fails_with_internal(r, "invalid issue priority in database: "@ + value@),
            },
    {
        if str_equals(value, "low") {
            Ok(Priority::Low)
        } else if str_equals(value, "medium") {
            Ok(Priority::Medium)
        } else if str_equals(value, "high") {
            Ok(Priority::High)
        } else if str_equals(value, "critical") {
            Ok(Priority::Critical)
        } else {
            Err(AppError::Internal(concat("invalid issue priority in database: ", value)))
        }
    }
}

/// An Issue as stored; identifiers are UUIDs as 128-bit numbers and times
/// are nanoseconds since the Unix epoch, UTC.
#[derive(Clone, Debug)]
pub struct Issue {
    pub id: u128,
    pub project_id: u128,
    pub number: i64,
    pub title: String,
    pub body: Option<String>,
    pub state: IssueState,
    pub priority: Option<Priority>,
    pub assignee_kind: Option<AssigneeKind>,
    pub assignee_name: Option<String>,
    pub revision: i64,
    pub created_at: i64,
    pub updated_at: i64,
}

/// The filters of an Issue listing.
#[derive(Clone, Debug)]
pub struct IssueFilter {
    pub projects: Vec<String>,
    pub states: Vec<IssueState>,
    pub priorities: Vec<Priority>,
    pub assignee: Option<String>,
    /// Nanoseconds since the Unix epoch, UTC.
    pub updated_after: Option<i64>,
    pub query: Option<String>,
    pub include_done: bool,
}

/// A Git worktree that an Issue is attached to.
#[derive(Clone, Debug)]
pub struct IssueWorktree {
    pub issue: String,
    pub path: String,
    pub branch: Option<String>,
    pub active: bool,
}

/// The Git worktree that a directory belongs to.
#[derive(Clone, Debug)]
pub struct WorktreeContext {
    pub path: String,
    pub branch: Option<String>,
}

/// An Issue in a listing, with its project and active worktrees.
#[derive(Clone, Debug)]
pub struct IssueListItem {
    pub project: String,
    pub issue: Issue,
    pub worktrees: Vec<IssueWorktree>,
}

/// An Issue with its relations.
#[derive(Clone, Debug)]
pub struct IssueDetails {
    pub issue: Issue,
    pub dependencies: Vec<IssueDependency>,
    pub worktrees: Vec<IssueWorktree>,
}

/// The result of a redaction.
#[derive(Clone, Debug)]
pub struct RedactionResult {
    pub target_type: String,
    pub target_id: u128,
    pub changed_count: usize,
}

/// A reference to an Issue: `PROJECT#NUMBER`.
#[derive(Clone, Debug)]
pub struct IssueReference {
    pub project: String,
    pub number: i64,
}

/// The position of the last `c` in `s`, or -1.
pub open spec fn last_index_of(s: Seq<char>, c: char) -> int
    decreases s.len(),
{
    if s.len() == 0 {
        -1
    } else if s.last() == c {
        s.len() - 1
    } else {
        last_index_of(s.drop_last(), c)
    }
}

pub open spec fn project_name_error(name: Seq<char>) -> Option<Seq<char>> {
    if is_blank(name) {
        Some("project name must not be empty"@)
    } else if name.len() > 200 {
        Some("project name must contain at most 200 Unicode scalar values"@)
    } else {
        None
    }
}

/// How `IssueReference::parse` reads `value`: the text after its last `#` is the
/// number and the text before it the project; without a `#`, the whole text
/// is the number and the project is the default one.
pub open spec fn parse_reference_spec(value: Seq<char>, default_project: Option<Seq<char>>) -> Result<
    (Seq<char>, int),
    Seq<char>,
> {
    let i = last_index_of(value, '#');
    let split = if i >= 0 {
        Some((value.take(i), value.skip(i + 1)))
    } else {
        match default_project {
            Some(p) => Some((p, value)),
            None => None,
        }
    };
    match split {
        None => Err("issue reference must use PROJECT#NUMBER or provide --project"@),
        Some((project, number)) => match project_name_error(project) {
            Some(m) => Err(m),
            None => match parse_i64_spec(number) {
                None => Err("issue reference number must be a positive integer"@),
                Some(n) => if n < 1 {
                    Err("issue reference number must be positive"@)
                } else {
                    Ok((project, n))
                },
            },
        },
    }
}

fn last_index_of_char(v: &Vec<char>, c: char) -> (r: Option<usize>)
    ensures
        match r {
            Some(i) => i < v.len() && last_index_of(v@, c) == i as int,
            None => last_index_of(v@, c) == -1,
        },
{
    let mut k = v.len();
    assert(v@.take(k as int) =~= v@);
    while k > 0
        invariant
            k <= v.len(),
            last_index_of(v@, c) == last_index_of(v@.take(k as int), c),
        decreases k,
    {
        assert(v@.take(k as int).last() == v@[k - 1]);
        if v[k - 1] == c {
            return Some(k - 1);
        }
        assert(v@.take(k as int).drop_last() == v@.take(k - 1));
        k = k - 1;
    }
    None
}

fn subrange_chars(v: &Vec<char>, from: usize, to: usize) -> (r: Vec<char>)
    requires
        from <= to <= v.len(),
    ensures
        r@ == v@.subrange(from as int, to as int),
{
    let mut r: Vec<char> = Vec::new();
    let mut k = from;
    while k < to
        invariant
            from <= k <= to,
            to <= v.len(),
            r@ == v@.subrange(from as int, k as int),
        decreases to - k,
    {
        r.push(v[k]);
        k = k + 1;
        assert(v@.subrange(from as int, k as int) == v@.subrange(from as int, k - 1).push(v@[k - 1]));
    }
    r
}

impl IssueReference {
    /// Reads `PROJECT#NUMBER`, or a bare `NUMBER` with a default project.
    pub fn parse(value: &str, default_project: Option<&str>) -> (r: Result<Self, AppError>)
        ensures
            match parse_reference_spec(
                value@,
                match default_project {
                    Some(p) => Some(p@),
                    None => None,
                },
            ) {
                Ok((project, n)) => r matches Ok(reference) && reference.project@ == project
                    && reference.number == n,
                Err(m) => fails_with_input(r, m),
            },
    {
        let v = chars_of(value);
        let (project, number) = match last_index_of_char(&v, '#') {
            Some(i) => {
                let project = string_from_chars(&subrange_chars(&v, 0, i));
                let number = subrange_chars(&v, i + 1, v.len());
                assert(v@.take(i as int) == v@.subrange(0, i as int));
                assert(v@.skip(i + 1) == v@.subrange(i + 1, v@.len() as int));
                (project, number)
            },
            None => match default_project {
                Some(p) => (p.to_owned(), v),
                None => {
                    return Err(
                        invalid_input(
                            "issue reference must use PROJECT#NUMBER or provide --project",
                        ),
                    );
                },
            },
        };
        validate_project_name(project.as_str())?;
        let number = match parse_i64_chars(&number) {
            Some(n) => n,
            None => {
                return Err(invalid_input("issue reference number must be a positive integer"));
            },
        };
        if number < 1 {
            return Err(invalid_input("issue reference number must be positive"));
        }
        Ok(IssueReference { project, number })
    }

    /// `PROJECT#NUMBER`.
    pub fn label(&self) -> (s: String)
        ensures
            s@ == self.project@ + "#"@ + int_decimal(self.number as int),
    {
        let n = i64_to_decimal(self.number);
        concat3(self.project.as_str(), "#", n.as_str())
    }
}

/// A `blocks` relation between two Issues.
#[derive(Clone, Debug)]
pub struct IssueDependency {
    pub blocker: String,
    pub blocked: String,
    pub relation: String,
    pub created_at: i64,
}

/// A one-level parent relation.
#[derive(Clone, Debug)]
pub struct IssueParent {
    pub child: String,
    pub parent: String,
    pub created_at: i64,
}

/// An agent session's lease on an Issue.
#[derive(Clone, Debug)]
pub struct IssueLease {
    pub agent: String,
    pub session_id: String,
    pub claimed_at: i64,
    pub heartbeat_at: i64,
    pub expires_at: i64,
    pub lease_revision: i64,
    pub stale: bool,
}

#[derive(Clone, Debug)]
pub struct ClaimedIssue {
    pub issue: Issue,
    pub lease: IssueLease,
}

/// What an agent asks a human to decide.
#[derive(Clone, Debug)]
pub struct DecisionRequestInput {
    pub blocker: String,
    pub question: String,
    pub options: Vec<String>,
    pub recommendation: String,
    pub resume_condition: String,
    pub background: String,
}

/// A stored decision request and its resolution.
#[derive(Clone, Debug)]
pub struct DecisionRequest {
    pub id: u128,
    pub issue: String,
    pub question: String,
    pub background: String,
    pub blocker: String,
    pub options: Vec<String>,
    pub recommendation: String,
    pub resume_condition: String,
    pub requester_kind: Option<InitiatorKind>,
    pub requester_name: Option<String>,
    pub requester_session_id: Option<String>,
    pub status: String,
    pub answer: Option<String>,
    pub resolver_kind: Option<InitiatorKind>,
    pub resolver_name: Option<String>,
    pub resolver_session_id: Option<String>,
    pub created_at: i64,
    pub resolved_at: Option<i64>,
}

/// A domain event in the event feed.
#[derive(Clone, Debug)]
pub struct EventRecord {
    pub sequence: i64,
    pub event_type: String,
    pub project_id: Option<u128>,
    pub issue_id: Option<u128>,
    pub changed_fields: Vec<String>,
    pub revision: Option<i64>,
    pub created_at: i64,
    pub issue: Option<Issue>,
}

/// One page of the event feed.
#[derive(Clone, Debug)]
pub struct EventPage {
    pub next_cursor: i64,
    pub has_more: bool,
    pub events: Vec<EventRecord>,
}

/// The features that this build offers, sorted by name.
#[derive(Clone, Debug)]
pub struct CapabilitySet {
    pub json_contract_version: u32,
    pub cli_version: &'static str,
    pub capabilities: Vec<(&'static str, bool)>,
}

/// The supervision view across projects.
#[derive(Clone, Debug)]
pub struct Status {
    pub attention: Vec<IssueListItem>,
    pub stale: Vec<IssueListItem>,
    pub blocked: Vec<IssueListItem>,
    pub recently_completed: Vec<IssueListItem>,
    pub active: Vec<IssueListItem>,
}

/// A comment on an Issue.
#[derive(Clone, Debug)]
pub struct Comment {
    pub id: u128,
    pub issue_id: u128,
    pub body: String,
    pub context: ExecutionContext,
    pub created_at: i64,
}

/// An entry of an Issue's history; `metadata` is its JSON text.
#[derive(Clone, Debug)]
pub struct DomainEvent {
    pub sequence: i64,
    pub event_type: String,
    pub revision: Option<i64>,
    pub created_at: i64,
    pub context: ExecutionContext,
    pub metadata: String,
}

pub fn validate_project_name(name: &str) -> (r: Result<(), AppError>)
    ensures
        match project_name_error(name@) {
            Some(m) => fails_with_input(r, m),
            None => r is Ok,
        },
{
    if is_blank_str(name) {
        return Err(invalid_input("project name must not be empty"));
    }
    if char_count(name) > 200 {
        return Err(invalid_input("project name must contain at most 200 Unicode scalar values"));
    }
    Ok(())
}

pub open spec fn idempotency_key_error(key: Seq<char>) -> Option<Seq<char>> {
    if is_blank(key) {
        Some("idempotency key must not be empty"@)
    } else if key.len() > 200 {
        Some("idempotency key must contain at most 200 Unicode scalar values"@)
    } else {
        None
    }
}

pub fn validate_idempotency_key(key: &str) -> (r: Result<(), AppError>)
    ensures
        match idempotency_key_error(key@) {
            Some(m) => fails_with_input(r, m),
            None => r is Ok,
        },
{
    if is_blank_str(key) {
        return Err(invalid_input("idempotency key must not be empty"));
    }
    if char_count(key) > 200 {
        return Err(invalid_input("idempotency key must contain at most 200 Unicode scalar values"));
    }
    Ok(())
}

/// The largest body, in UTF-8 bytes, that an Issue or a comment may hold: 1 MiB.
pub const MAX_BODY_BYTES: usize = 1048576;

/// The length of a text in UTF-8 bytes.
pub open spec fn utf8_len(s: Seq<char>) -> nat {
    encode_utf8(s).len()
}

pub open spec fn comment_body_error(body: Seq<char>) -> Option<Seq<char>> {
    if is_blank(body) {
        Some("comment body must not be empty"@)
    } else if utf8_len(body) > MAX_BODY_BYTES {
        Some("comment body must contain at most 1 MiB"@)
    } else {
        None
    }
}

pub fn validate_comment_body(body: &str) -> (r: Result<(), AppError>)
    ensures
        match comment_body_error(body@) {
            Some(m) => fails_with_input(r, m),
            None => r is Ok,
        },
{
    if is_blank_str(body) {
        return Err(invalid_input("comment body must not be empty"));
    }
    if body.as_bytes().len() > MAX_BODY_BYTES {
        return Err(invalid_input("comment body must contain at most 1 MiB"));
    }
    Ok(())
}

pub open spec fn issue_title_error(title: Seq<char>) -> Option<Seq<char>> {
    if is_blank(title) {
        Some("issue title must not be empty"@)
    } else if title.len() > 500 {
        Some("issue title must contain at most 500 Unicode scalar values"@)
    } else {
        None
    }
}

pub fn validate_issue_title(title: &str) -> (r: Result<(), AppError>)
    ensures
        match issue_title_error(title@) {
            Some(m) => fails_with_input(r, m),
            None => r is Ok,
        },
{
    if is_blank_str(title) {
        return Err(invalid_input("issue title must not be empty"));
    }
    if char_count(title) > 500 {
        return Err(invalid_input("issue title must contain at most 500 Unicode scalar values"));
    }
    Ok(())
}

pub open spec fn issue_body_error(body: Option<Seq<char>>) -> Option<Seq<char>> {
    match body {
        Some(b) => if utf8_len(b) > MAX_BODY_BYTES {
            Some("issue body must contain at most 1 MiB"@)
        } else {
            None
        },
        None => None,
    }
}

/// The view of an optional text.
pub open spec fn opt_view(o: Option<&str>) -> Option<Seq<char>> {
    match o {
        Some(s) => Some(s@),
        None => None,
    }
}

pub open spec fn opt_string_view(o: Option<String>) -> Option<Seq<char>> {
    match o {
        Some(s) => Some(s@),
        None => None,
    }
}

pub fn validate_issue_body(body: Option<&str>) -> (r: Result<(), AppError>)
    ensures
        match issue_body_error(opt_view(body)) {
            Some(m) => fails_with_input(r, m),
            None => r is Ok,
        },
{
    if let Some(b) = body {
        if b.as_bytes().len() > MAX_BODY_BYTES {
            return Err(invalid_input("issue body must contain at most 1 MiB"));
        }
    }
    Ok(())
}

pub fn validate_decision_text(name: &str, value: &str) -> (r: Result<(), AppError>)
    ensures
        is_blank(value@) ==> fails_with_input(r, name@ + " must not be empty"@),
        !is_blank(value@) ==> r is Ok,
{
    if is_blank_str(value) {
        return Err(AppError::InvalidInput(concat(name, " must not be empty")));
    }
    Ok(())
}

/// The index of the first blank option, if any.
pub open spec fn first_blank_option(options: Seq<String>) -> Option<int> {
    if exists|i: int| 0 <= i < options.len() && is_blank(#[trigger] options[i]@) {
        Some(
            choose|i: int|
                0 <= i < options.len() && is_blank(#[trigger] options[i]@) && forall|j: int|
                    0 <= j < i ==> !is_blank(#[trigger] options[j]@),
        )
    } else {
        None
    }
}

/// A decision offers at least two options and none of them is blank; the first
/// blank option is reported by its 1-based position.
pub fn validate_decision_options(options: &Vec<String>) -> (r: Result<(), AppError>)
    ensures
        options.len() < 2 ==> fails_with_input(
            r,
            "decision options must contain at least two choices"@,
        ),
        options.len() >= 2 ==> match first_blank_option(options@) {
            Some(i) => fails_with_input(
                r,
                "decision option "@ + int_decimal(i + 1) + " must not be empty"@,
            ),
            None => r is Ok,
        },
{
    if options.len() < 2 {
        return Err(invalid_input("decision options must contain at least two choices"));
    }
    let mut index: usize = 0;
    while index < options.len()
        invariant
            2 <= options.len(),
            index <= options.len(),
            forall|j: int| 0 <= j < index ==> !is_blank(#[trigger] options@[j]@),
        decreases options.len() - index,
    {
        if is_blank_str(options[index].as_str()) {
            proof {
                let i = index as int;
                assert(0 <= i < options@.len() && is_blank(options@[i]@) && forall|j: int|
                    0 <= j < i ==> !is_blank(#[trigger] options@[j]@));
                let c = choose|k: int|
                    0 <= k < options@.len() && is_blank(#[trigger] options@[k]@) && forall|j: int|
                        0 <= j < k ==> !is_blank(#[trigger] options@[j]@);
                assert(c == i) by {
                    if c < i {
                        assert(!is_blank(options@[c]@));
                    } else if c > i {
                        assert(!is_blank(options@[i]@));
                    }
                }
            }
            let position = u64_to_decimal((index + 1) as u64);
            let name = concat("decision option ", position.as_str());
            return Err(AppError::InvalidInput(concat(name.as_str(), " must not be empty")));
        }
        index = index + 1;
    }
    Ok(())
}

} // verus!

verus! {

/// The input of a new Issue.
#[derive(Clone, Debug)]
pub struct NewIssue {
    pub title: String,
    pub body: Option<String>,
    pub priority: Option<Priority>,
}

/// The error, if any, with which a new Issue is refused.
pub open spec fn new_issue_error(issue: NewIssue) -> Option<Seq<char>> {
    match issue_title_error(issue.title@) {
        Some(m) => Some(m),
        None => issue_body_error(opt_string_view(issue.body)),
    }
}

/// The fields that creating `issue` records as changed.
pub open spec fn new_issue_changed_fields(issue: NewIssue) -> Seq<Seq<char>> {
    seq!["title"@] + (if issue.body is Some {
        seq!["body"@]
    } else {
        seq![]
    }) + seq!["state"@] + (if issue.priority is Some {
        seq!["priority"@]
    } else {
        seq![]
    })
}

impl NewIssue {
    pub fn validate(&self) -> (r: Result<(), AppError>)
        ensures
            match new_issue_error(*self) {
                Some(m) => fails_with_input(r, m),
                None => r is Ok,
            },
    {
        validate_issue_title(self.title.as_str())?;
        match &self.body {
            Some(b) => validate_issue_body(Some(b.as_str())),
            None => validate_issue_body(None),
        }
    }

    pub fn changed_fields(&self) -> (v: Vec<&'static str>)
        ensures
            str_views(v@) == new_issue_changed_fields(*self),
    {
        let mut fields: Vec<&'static str> = vec!["title"];
        if self.body.is_some() {
            fields.push("body");
        }
        fields.push("state");
        if self.priority.is_some() {
            fields.push("priority");
        }
        proof {
            assert(str_views(fields@) =~= new_issue_changed_fields(*self));
        }
        fields
    }
}

/// An edit of an Issue. A field left `None` is kept; `Some(None)` clears an
/// optional field.
#[derive(Clone, Debug)]
pub struct IssuePatch {
    pub title: Option<String>,
    pub body: Option<Option<String>>,
    pub priority: Option<Option<Priority>>,
    pub assignee_kind: Option<Option<AssigneeKind>>,
    pub assignee_name: Option<Option<String>>,
}

/// The error, if any, with which an edit is refused.
pub open spec fn patch_error(p: IssuePatch) -> Option<Seq<char>> {
    if p.title is None && p.body is None && p.priority is None && p.assignee_kind is None
        && p.assignee_name is None {
        Some("issue edit must change at least one field"@)
    } else if p.title is Some && issue_title_error(p.title->0@) is Some {
        issue_title_error(p.title->0@)
    } else if p.body is Some && issue_body_error(opt_string_view(p.body->0)) is Some {
        issue_body_error(opt_string_view(p.body->0))
    } else if (p.assignee_kind is Some) != (p.assignee_name is Some) {
        Some("assignee kind and name must be provided together"@)
    } else {
        match (p.assignee_kind, p.assignee_name) {
            (Some(kind), Some(name)) => if (kind is Some) != (name is Some) {
                Some("assignee kind and name must be set or cleared together"@)
            } else {
                match name {
                    Some(n) => if is_blank(n@) {
                        Some("assignee name must not be empty"@)
                    } else if n@.len() > 200 {
                        Some("assignee name must contain at most 200 Unicode scalar values"@)
                    } else {
                        None
                    },
                    None => None,
                }
            },
            _ => None,
        }
    }
}

/// `issue` with the fields that `p` provides replaced.
pub open spec fn patched(issue: Issue, p: IssuePatch) -> Issue {
    Issue {
        title: match p.title {
            Some(t) => t,
            None => issue.title,
        },
        body: match p.body {
            Some(b) => b,
            None => issue.body,
        },
        priority: match p.priority {
            Some(x) => x,
            None => issue.priority,
        },
        assignee_kind: match p.assignee_kind {
            Some(x) => x,
            None => issue.assignee_kind,
        },
        assignee_name: match p.assignee_name {
            Some(x) => x,
            None => issue.assignee_name,
        },
        ..issue
    }
}

/// The fields that `p` provides and that differ between `before` and `after`,
/// in declaration order.
pub open spec fn patch_changed_fields(p: IssuePatch, before: Issue, after: Issue) -> Seq<
    Seq<char>,
> {
    (if p.title is Some && before.title@ != after.title@ {
        seq!["title"@]
    } else {
        seq![]
    }) + (if p.body is Some && opt_string_view(before.body) != opt_string_view(after.body) {
        seq!["body"@]
    } else {
        seq![]
    }) + (if p.priority is Some && before.priority != after.priority {
        seq!["priority"@]
    } else {
        seq![]
    }) + (if p.assignee_kind is Some && before.assignee_kind != after.assignee_kind {
        seq!["assignee_kind"@]
    } else {
        seq![]
    }) + (if p.assignee_name is Some && opt_string_view(before.assignee_name)
        != opt_string_view(after.assignee_name) {
        seq!["assignee_name"@]
    } else {
        seq![]
    })
}

/// A copy of an optional text.
pub fn clone_opt_string(o: &Option<String>) -> (r: Option<String>)
    ensures
        r == *o,
{
    match o {
        Some(s) => Some(s.clone()),
        None => None,
    }
}

fn opt_strings_equal(a: &Option<String>, b: &Option<String>) -> (r: bool)
    ensures
        r == (opt_string_view(*a) == opt_string_view(*b)),
{
    match (a, b) {
        (Some(x), Some(y)) => str_equals(x.as_str(), y.as_str()),
        (None, None) => true,
        _ => false,
    }
}

fn opt_priorities_equal(a: Option<Priority>, b: Option<Priority>) -> (r: bool)
    ensures
        r == (a == b),
{
    match (a, b) {
        (Some(x), Some(y)) => x == y,
        (None, None) => true,
        _ => false,
    }
}

fn opt_kinds_equal(a: Option<AssigneeKind>, b: Option<AssigneeKind>) -> (r: bool)
    ensures
        r == (a == b),
{
    match (a, b) {
        (Some(x), Some(y)) => x == y,
        (None, None) => true,
        _ => false,
    }
}

impl IssuePatch {
    pub fn validate(&self) -> (r: Result<(), AppError>)
        ensures
            match patch_error(*self) {
                Some(m) => fails_with_input(r, m),
                None => r is Ok,
            },
    {
        if self.title.is_none() && self.body.is_none() && self.priority.is_none()
            && self.assignee_kind.is_none() && self.assignee_name.is_none() {
            return Err(invalid_input("issue edit must change at least one field"));
        }
        if let Some(title) = &self.title {
            validate_issue_title(title.as_str())?;
        }
        if let Some(body) = &self.body {
            match body {
                Some(b) => validate_issue_body(Some(b.as_str()))?,
                None => validate_issue_body(None)?,
            }
        }
        if self.assignee_kind.is_some() != self.assignee_name.is_some() {
            return Err(invalid_input("assignee kind and name must be provided together"));
        }
        if let (Some(kind), Some(name)) = (&self.assignee_kind, &self.assignee_name) {
            if kind.is_some() != name.is_some() {
                return Err(invalid_input("assignee kind and name must be set or cleared together"));
            }
            if let Some(name) = name {
                if is_blank_str(name.as_str()) {
                    return Err(invalid_input("assignee name must not be empty"));
                }
                if char_count(name.as_str()) > 200 {
                    return Err(
                        invalid_input(
                            "assignee name must contain at most 200 Unicode scalar values",
                        ),
                    );
                }
            }
        }
        Ok(())
    }

    pub fn apply_to(&self, issue: &mut Issue)
        ensures
            *final(issue) == patched(*old(issue), *self),
    {
        if let Some(title) = &self.title {
            issue.title = title.clone();
        }
        if let Some(body) = &self.body {
            issue.body = clone_opt_string(body);
        }
        if let Some(priority) = self.priority {
            issue.priority = priority;
        }
        if let Some(assignee_kind) = self.assignee_kind {
            issue.assignee_kind = assignee_kind;
        }
        if let Some(assignee_name) = &self.assignee_name {
            issue.assignee_name = clone_opt_string(assignee_name);
        }
    }

    pub fn changed_fields(&self, before: &Issue, after: &Issue) -> (v: Vec<&'static str>)
        ensures
            str_views(v@) == patch_changed_fields(*self, *before, *after),
    {
        let mut fields: Vec<&'static str> = Vec::new();
        if self.title.is_some() && !str_equals(before.title.as_str(), after.title.as_str()) {
            fields.push("title");
        }
        if self.body.is_some() && !opt_strings_equal(&before.body, &after.body) {
            fields.push("body");
        }
        if self.priority.is_some() && !opt_priorities_equal(before.priority, after.priority) {
            fields.push("priority");
        }
        if self.assignee_kind.is_some() && !opt_kinds_equal(
            before.assignee_kind,
            after.assignee_kind,
        ) {
            fields.push("assignee_kind");
        }
        if self.assignee_name.is_some() && !opt_strings_equal(
            &before.assignee_name,
            &after.assignee_name,
        ) {
            fields.push("assignee_name");
        }
        proof {
            assert(str_views(fields@) =~= patch_changed_fields(*self, *before, *after));
        }
        fields
    }
}

} // verus!

verus! {

/// One operation of a batch.
#[derive(Clone, Debug)]
pub enum BatchOperation {
    IssueCreate { project: Option<String>, title: String, body: Option<String>, priority: Option<Priority> },
    IssueEdit { project: Option<String>, number: i64, revision: i64, patch: IssuePatch },
    IssueComment { project: Option<String>, number: i64, body: String },
    IssueStart { project: Option<String>, number: i64, revision: i64 },
    IssueBlock {
        project: Option<String>,
        number: i64,
        revision: i64,
        reason: String,
        wait_kind: WaitKind,
    },
    IssueResume { project: Option<String>, number: i64, revision: i64 },
    IssueComplete {
        project: Option<String>,
        number: i64,
        revision: i64,
        summary: String,
        verification: String,
    },
    IssueCancel { project: Option<String>, number: i64, revision: i64, reason: String },
    IssueReopen { project: Option<String>, number: i64, revision: i64, reason: String },
}

pub open spec fn batch_operation_name(op: BatchOperation) -> Seq<char> {
    match op {
        BatchOperation::IssueCreate { .. } => "issue_create"@,
        BatchOperation::IssueEdit { .. } => "issue_edit"@,
        BatchOperation::IssueComment { .. } => "issue_comment"@,
        BatchOperation::IssueStart { .. } => "issue_start"@,
        BatchOperation::IssueBlock { .. } => "issue_block"@,
        BatchOperation::IssueResume { .. } => "issue_resume"@,
        BatchOperation::IssueComplete { .. } => "issue_complete"@,
        BatchOperation::IssueCancel { .. } => "issue_cancel"@,
        BatchOperation::IssueReopen { .. } => "issue_reopen"@,
    }
}

impl BatchOperation {
    pub fn operation_name(&self) -> (s: &'static str)
        ensures
            s@ == batch_operation_name(*self),
    {
        match self {
            BatchOperation::IssueCreate { .. } => "issue_create",
            BatchOperation::IssueEdit { .. } => "issue_edit",
            BatchOperation::IssueComment { .. } => "issue_comment",
            BatchOperation::IssueStart { .. } => "issue_start",
            BatchOperation::IssueBlock { .. } => "issue_block",
            BatchOperation::IssueResume { .. } => "issue_resume",
            BatchOperation::IssueComplete { .. } => "issue_complete",
            BatchOperation::IssueCancel { .. } => "issue_cancel",
            BatchOperation::IssueReopen { .. } => "issue_reopen",
        }
    }
}

/// The outcome of one operation of a batch: its name and its JSON result.
#[derive(Debug)]
pub struct BatchResult {
    pub operation: String,
    pub result: Json,
}

} // verus!

verus! {

/// The metadata that a transition records beside its states, as named texts.
pub open spec fn transition_details(t: Transition) -> Seq<(Seq<char>, Option<Seq<char>>)> {
    match t {
        Transition::Block(b) => seq![
            ("reason"@, Some(b.reason@)),
            ("wait_kind"@, Some(wait_kind_name(b.wait_kind))),
        ],
        Transition::Complete(c) => seq![
            ("summary"@, Some(c.summary@)),
            ("verification"@, Some(c.verification@)),
        ],
        Transition::Cancel(r) => seq![("reason"@, Some(r.reason@))],
        Transition::Reopen(r) => seq![("reason"@, Some(r.reason@))],
        _ => seq![],
    }
}

/// `j` is the event metadata of a move from `from` to `to` at `revision`,
/// followed by `details`.
pub open spec fn is_state_change_metadata(
    j: Json,
    from: IssueState,
    to: IssueState,
    revision: i64,
    details: Seq<(Seq<char>, Option<Seq<char>>)>,
) -> bool {
    let m = object_members(j);
    &&& j is Object
    &&& m.len() == 3 + details.len()
    &&& text_member(m[0], "from_state"@, Some(issue_state_name(from)))
    &&& text_member(m[1], "to_state"@, Some(issue_state_name(to)))
    &&& int_member(m[2], "revision"@, revision as int)
    &&& forall|i: int|
        0 <= i < details.len() ==> text_member(#[trigger] m[3 + i], details[i].0, details[i].1)
}

impl Transition {
    fn push_details(&self, members: &mut Vec<(String, Json)>)
        ensures
            final(members)@.len() == old(members)@.len() + transition_details(*self).len(),
            forall|i: int|
                0 <= i < old(members)@.len() ==> #[trigger] final(members)@[i] == old(
                    members,
                )@[i],
            forall|i: int|
                0 <= i < transition_details(*self).len() ==> text_member(
                    #[trigger] final(members)@[old(members)@.len() + i],
                    transition_details(*self)[i].0,
                    transition_details(*self)[i].1,
                ),
    {
        match self {
            Transition::Start | Transition::Resume => {},
            Transition::Block(block) => {
                members.push(member("reason", json_str(block.reason.as_str())));
                members.push(member("wait_kind", json_str(block.wait_kind.as_str())));
            },
            Transition::Complete(complete) => {
                members.push(member("summary", json_str(complete.summary.as_str())));
                members.push(member("verification", json_str(complete.verification.as_str())));
            },
            Transition::Cancel(r) => {
                members.push(member("reason", json_str(r.reason.as_str())));
            },
            Transition::Reopen(r) => {
                members.push(member("reason", json_str(r.reason.as_str())));
            },
        }
    }

    /// What identifies a transition request when it is repeated under an
    /// idempotency key: its kind and its metadata.
    pub fn idempotency_payload(&self) -> (j: Json)
        ensures
            text_object(
                j,
                seq![("kind"@, Some(transition_kind_name(self.kind())))] + transition_details(
                    *self,
                ),
            ),
    {
        let mut members: Vec<(String, Json)> = Vec::new();
        members.push(member("kind", json_str(self.name())));
        self.push_details(&mut members);
        let ghost expected = seq![("kind"@, Some(transition_kind_name(self.kind())))]
            + transition_details(*self);
        assert forall|i: int| 0 <= i < expected.len() implies text_member(
            #[trigger] members@[i],
            expected[i].0,
            expected[i].1,
        ) by {
            if i > 0 {
                assert(members@[1 + (i - 1)] == members@[i]);
            }
        }
        Json::Object(members)
    }

    /// The event metadata of this transition from `from_state` to `to_state`,
    /// recorded at `revision`.
    pub fn event_metadata(&self, from_state: IssueState, to_state: IssueState, revision: i64) -> (j:
        Json)
        ensures
            is_state_change_metadata(j, from_state, to_state, revision, transition_details(*self)),
    {
        let mut members: Vec<(String, Json)> = Vec::new();
        members.push(member("from_state", json_str(from_state.as_str())));
        members.push(member("to_state", json_str(to_state.as_str())));
        members.push(member("revision", Json::Int(revision)));
        self.push_details(&mut members);
        Json::Object(members)
    }
}

impl DecisionResolution {
    /// The event metadata of this resolution from `from_state`, recorded at
    /// `revision`.
    pub fn event_metadata(&self, from_state: IssueState, revision: i64) -> (j: Json)
        ensures
            is_state_change_metadata(
                j,
                from_state,
                self.target_state,
                revision,
                match self.transition {
                    Some(t) => transition_details(t),
                    None => seq![],
                },
            ),
    {
        match &self.transition {
            Some(transition) => transition.event_metadata(from_state, self.target_state, revision),
            None => {
                let mut members: Vec<(String, Json)> = Vec::new();
                members.push(member("from_state", json_str(from_state.as_str())));
                members.push(member("to_state", json_str(self.target_state.as_str())));
                members.push(member("revision", Json::Int(revision)));
                Json::Object(members)
            },
        }
    }
}

/// The changes that an edit records, as named texts; `None` stands for a
/// cleared field.
pub open spec fn patch_changes(p: IssuePatch) -> Seq<(Seq<char>, Option<Seq<char>>)> {
    (match p.title {
        Some(t) => seq![("title"@, Some(t@))],
        None => seq![],
    }) + (match p.body {
        Some(b) => seq![("body"@, opt_string_view(b))],
        None => seq![],
    }) + (match p.priority {
        Some(x) => seq![
            ("priority"@, match x {
                Some(v) => Some(priority_name(v)),
                None => None,
            }),
        ],
        None => seq![],
    }) + (match p.assignee_kind {
        Some(x) => seq![
            ("assignee_kind"@, match x {
                Some(v) => Some(assignee_kind_name(v)),
                None => None,
            }),
        ],
        None => seq![],
    }) + (match p.assignee_name {
        Some(n) => seq![("assignee_name"@, opt_string_view(n))],
        None => seq![],
    })
}

fn json_opt_string(o: &Option<String>) -> (j: Json)
    ensures
        match *o {
            Some(s) => j matches Json::Str(t) && t@ == s@,
            None => j is Null,
        },
{
    match o {
        Some(s) => json_str(s.as_str()),
        None => Json::Null,
    }
}

impl IssuePatch {
    /// The event metadata of this edit: its changes and the new revision.
    pub fn event_metadata(&self, revision: i64) -> (j: Json)
        ensures
            object_members(j).len() == 2,
            j is Object,
            object_members(j)[0].0@ == "changes"@,
            text_object(object_members(j)[0].1, patch_changes(*self)),
            int_member(object_members(j)[1], "revision"@, revision as int),
    {
        let mut changes: Vec<(String, Json)> = Vec::new();
        if let Some(title) = &self.title {
            changes.push(member("title", json_str(title.as_str())));
        }
        let ghost c1 = changes@;
        if let Some(body) = &self.body {
            changes.push(member("body", json_opt_string(body)));
        }
        let ghost c2 = changes@;
        if let Some(priority) = self.priority {
            let value = match priority {
                Some(p) => json_str(p.as_str()),
                None => Json::Null,
            };
            changes.push(member("priority", value));
        }
        let ghost c3 = changes@;
        if let Some(kind) = self.assignee_kind {
            let value = match kind {
                Some(k) => json_str(k.as_str()),
                None => Json::Null,
            };
            changes.push(member("assignee_kind", value));
        }
        let ghost c4 = changes@;
        if let Some(name) = &self.assignee_name {
            changes.push(member("assignee_name", json_opt_string(name)));
        }
        let ghost expected = patch_changes(*self);
        assert(changes@.len() == expected.len());
        assert forall|i: int| 0 <= i < expected.len() implies text_member(
            #[trigger] changes@[i],
            expected[i].0,
            expected[i].1,
        ) by {
            assert(c1.len() <= c2.len() <= c3.len() <= c4.len() <= changes@.len());
        }
        let mut members: Vec<(String, Json)> = Vec::new();
        members.push(member("changes", Json::Object(changes)));
        members.push(member("revision", Json::Int(revision)));
        Json::Object(members)
    }
}

} // verus!
