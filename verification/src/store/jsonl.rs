//! The JSONL audit log: its lines, their hash chain and its verification.
use crate::domain::{initiator_kind_name, ExecutionContext, InitiatorKind};
use crate::error::{fails_with_internal, AppError};
use crate::json::{
    find_member, first_member, int_member, opt_int, read_int, json_bytes, json_document, json_text, member, member_of,
    object_members, parse_json, text_member, Json,
};
use vstd::utf8::encode_utf8;
use sha2::Digest;
use crate::text::{push_char, str_equals};
use vstd::prelude::*;

verus! {

/// The SHA-256 digest of `data`.
pub uninterp spec fn sha256(data: Seq<u8>) -> Seq<u8>;

/// The SHA-256 digest of `data`, from the `sha2` crate: 32 bytes that are a
/// function of `data` alone.
#[verifier::external_body]
fn sha256_digest(data: &[u8]) -> (d: Vec<u8>)
    ensures
        d@ == sha256(data@),
        d@.len() == 32,
{
    sha2::Sha256::digest(data).to_vec()
}

/// The lowercase hexadecimal digit of `d`.
pub open spec fn hex_digit(d: u8) -> char {
    if d < 10 {
        (('0' as u8) + d) as char
    } else {
        (('a' as u8) + d - 10) as char
    }
}

/// `bytes` in lowercase hexadecimal, two digits a byte.
pub open spec fn hex_spec(bytes: Seq<u8>) -> Seq<char>
    decreases bytes.len(),
{
    if bytes.len() == 0 {
        Seq::empty()
    } else {
        hex_spec(bytes.drop_last()) + seq![
            hex_digit(bytes.last() / 16),
            hex_digit(bytes.last() % 16),
        ]
    }
}

fn hex_char(d: u8) -> (c: char)
    requires
        d < 16,
    ensures
        c == hex_digit(d),
{
    if d < 10 {
        ((48u8 + d) as char)
    } else {
        ((97u8 + d - 10) as char)
    }
}

/// `bytes` in lowercase hexadecimal.
pub fn hex_lower(bytes: &Vec<u8>) -> (s: String)
    ensures
        s@ == hex_spec(bytes@),
{
    let mut s = String::new();
    let mut i: usize = 0;
    while i < bytes.len()
        invariant
            i <= bytes.len(),
            s@ == hex_spec(bytes@.take(i as int)),
        decreases bytes.len() - i,
    {
        let b = bytes[i];
        push_char(&mut s, hex_char(b / 16));
        push_char(&mut s, hex_char(b % 16));
        assert(bytes@.take(i + 1).drop_last() =~= bytes@.take(i as int));
        i = i + 1;
    }
    assert(bytes@.take(i as int) =~= bytes@);
    s
}

/// The SHA-256 digest of `data` in lowercase hexadecimal.
pub fn sha256_hex(data: &[u8]) -> (s: String)
    ensures
        s@ == hex_spec(sha256(data@)),
{
    let d = sha256_digest(data);
    hex_lower(&d)
}

/// The number of newline bytes in `b`.
pub open spec fn newline_count(b: Seq<u8>) -> nat
    decreases b.len(),
{
    if b.len() == 0 {
        0
    } else {
        newline_count(b.drop_last()) + if b.last() == 10u8 {
            1nat
        } else {
            0nat
        }
    }
}

/// The lines joined back, each ended by a newline.
pub open spec fn join_lines(lines: Seq<Seq<u8>>) -> Seq<u8>
    decreases lines.len(),
{
    if lines.len() == 0 {
        Seq::empty()
    } else {
        join_lines(lines.drop_last()) + lines.last() + seq![10u8]
    }
}

pub open spec fn has_no_newline(line: Seq<u8>) -> bool {
    forall|i: int| 0 <= i < line.len() ==> line[i] != 10u8
}

/// An audit integrity error at a 1-based line.
pub fn integrity_error(message: &str, line: usize, sequence: Option<i64>) -> (e: AppError)
    ensures
        e matches AppError::AuditIntegrity { message: m, line: l, sequence: s } && m@ == message@
            && l == Some(line) && s == sequence,
{
    AppError::AuditIntegrity { message: message.to_owned(), line: Some(line), sequence }
}

proof fn lemma_newline_count_push(b: Seq<u8>, x: u8)
    ensures
        newline_count(b.push(x)) == newline_count(b) + if x == 10u8 {
            1nat
        } else {
            0nat
        },
{
    assert(b.push(x).drop_last() =~= b);
}

proof fn lemma_newline_count_bound(b: Seq<u8>)
    ensures
        newline_count(b) <= b.len(),
        b.len() > 0 && b.last() != 10u8 ==> newline_count(b) < b.len(),
    decreases b.len(),
{
    if b.len() > 0 {
        lemma_newline_count_bound(b.drop_last());
    }
}

/// Splits a JSONL file into its lines. The file is empty or ends with a
/// newline; otherwise its final line is incomplete.
pub fn split_jsonl(bytes: &Vec<u8>) -> (r: Result<Vec<Vec<u8>>, AppError>)
    ensures
        bytes@.len() > 0 && bytes@.last() != 10u8 ==> (r matches Err(
            AppError::AuditIntegrity { message, line, sequence },
        ) && message@ == "audit JSONL integrity check failed: incomplete final line"@ && line
            == Some((newline_count(bytes@) + 1) as usize) && sequence is None),
        !(bytes@.len() > 0 && bytes@.last() != 10u8) ==> (r matches Ok(lines) && join_lines(
            lines@.map_values(|l: Vec<u8>| l@),
        ) == bytes@ && forall|k: int|
            0 <= k < lines@.len() ==> has_no_newline(#[trigger] lines@[k]@)),
{
    let mut lines: Vec<Vec<u8>> = Vec::new();
    let mut current: Vec<u8> = Vec::new();
    let mut count: usize = 0;
    let mut i: usize = 0;
    while i < bytes.len()
        invariant
            i <= bytes.len(),
            count == newline_count(bytes@.take(i as int)),
            count <= i,
            join_lines(lines@.map_values(|l: Vec<u8>| l@)) + current@ == bytes@.take(i as int),
            has_no_newline(current@),
            forall|k: int| 0 <= k < lines@.len() ==> has_no_newline(#[trigger] lines@[k]@),
        decreases bytes.len() - i,
    {
        let b = bytes[i];
        proof {
            lemma_newline_count_push(bytes@.take(i as int), b);
            assert(bytes@.take(i + 1) =~= bytes@.take(i as int).push(b));
        }
        if b == 10u8 {
            let ghost old_lines = lines@.map_values(|l: Vec<u8>| l@);
            let line = current;
            current = Vec::new();
            lines.push(line);
            proof {
                assert(lines@.map_values(|l: Vec<u8>| l@).drop_last() =~= old_lines);
            }
            count = count + 1;
        } else {
            current.push(b);
        }
        i = i + 1;
    }
    assert(bytes@.take(i as int) =~= bytes@);
    if bytes.len() > 0 && bytes[bytes.len() - 1] != 10u8 {
        proof {
            lemma_newline_count_bound(bytes@);
        }
        return Err(
            integrity_error(
                "audit JSONL integrity check failed: incomplete final line",
                count + 1,
                None,
            ),
        );
    }
    proof {
        if current@.len() > 0 {
            let j = join_lines(lines@.map_values(|l: Vec<u8>| l@));
            assert(bytes@.last() == (j + current@).last());
            assert(false);
        }
        assert(current@ =~= Seq::<u8>::empty());
        assert(join_lines(lines@.map_values(|l: Vec<u8>| l@)) + current@ =~= join_lines(
            lines@.map_values(|l: Vec<u8>| l@),
        ));
    }
    Ok(lines)
}

/// The fields of an audit log line that chain it to the previous one.
#[derive(Clone, Debug)]
pub struct ExistingJsonlEvent {
    pub sequence: i64,
    pub event_id: String,
    pub previous_hash: Option<String>,
    pub hash: String,
}

/// What the JSON reader found in one line of the audit log.
#[derive(Clone, Debug)]
pub struct AuditLine {
    /// The line is a JSON value.
    pub json: bool,
    /// Its `schema_version`, when that is a non-negative integer.
    pub schema_version: Option<u64>,
    /// Its chain fields, when they are all present and well typed.
    pub event: Option<ExistingJsonlEvent>,
    /// The value is a JSON object.
    pub object: bool,
    /// The object without its `hash` member, keys sorted, as compact JSON.
    pub hash_input: Option<Vec<u8>>,
}

/// The outcome of a successful verification.
#[derive(Clone, Debug)]
pub struct AuditVerifyResult {
    pub valid: bool,
    pub event_count: usize,
    pub first_sequence: Option<i64>,
    pub last_sequence: Option<i64>,
    pub last_hash: Option<String>,
}

pub open spec fn opt_text(o: Option<String>) -> Option<Seq<char>> {
    match o {
        Some(s) => Some(s@),
        None => None,
    }
}

/// The problem, if any, of line `k` when every line before it is sound: the
/// message and the sequence that it reports.
pub open spec fn line_problem(lines: Seq<Seq<u8>>, parsed: Seq<AuditLine>, k: int) -> Option<
    (Seq<char>, Option<i64>),
> {
    let line = parsed[k];
    if lines[k].len() == 0 {
        Some(("audit JSONL integrity check failed: empty line"@, None))
    } else if !line.json {
        Some(("audit JSONL integrity check failed: invalid JSON line"@, None))
    } else if line.schema_version != Some(1u64) {
        Some(("audit JSONL integrity check failed: unsupported schema version"@, None))
    } else {
        match line.event {
            None => Some(("audit JSONL integrity check failed: missing event fields"@, None)),
            Some(e) => {
                let previous = parsed[k - 1].event->0;
                if e.sequence <= 0 {
                    Some(("audit JSONL integrity check failed: invalid sequence"@, Some(e.sequence)))
                } else if k > 0 && e.sequence != previous.sequence + 1 {
                    Some(
                        (
                            "audit JSONL integrity check failed: sequence is not contiguous"@,
                            Some(e.sequence),
                        ),
                    )
                } else if k > 0 && opt_text(e.previous_hash) != Some(previous.hash@) {
                    Some(
                        (
                            "audit JSONL integrity check failed: previous hash does not match"@,
                            Some(e.sequence),
                        ),
                    )
                } else if exists|j: int|
                    0 <= j < k && (#[trigger] parsed[j]).event->0.event_id@ == e.event_id@ {
                    Some(("audit JSONL integrity check failed: duplicate event id"@, Some(e.sequence)))
                } else if !line.object {
                    Some(
                        (
                            "audit JSONL integrity check failed: event is not an object"@,
                            Some(e.sequence),
                        ),
                    )
                } else {
                    match line.hash_input {
                        None => Some(
                            (
                                "audit JSONL integrity check failed: event cannot be serialized"@,
                                Some(e.sequence),
                            ),
                        ),
                        Some(input) => if hex_spec(sha256(input@)) != e.hash@ {
                            Some(
                                (
                                    "audit JSONL integrity check failed: hash does not match"@,
                                    Some(e.sequence),
                                ),
                            )
                        } else {
                            None
                        },
                    }
                }
            },
        }
    }
}

/// Every line before `n` is sound.
pub open spec fn sound_prefix(lines: Seq<Seq<u8>>, parsed: Seq<AuditLine>, n: int) -> bool {
    forall|k: int| 0 <= k < n ==> #[trigger] line_problem(lines, parsed, k) is None
}

/// Checks line `k`, every line before it being sound.
#[verifier::loop_isolation(false)]
fn check_line(lines: &Vec<Vec<u8>>, parsed: &Vec<AuditLine>, k: usize) -> (r: Option<
    (&'static str, Option<i64>),
>)
    requires
        lines.len() == parsed.len(),
        k < lines.len(),
        sound_prefix(lines@.map_values(|l: Vec<u8>| l@), parsed@, k as int),
    ensures
        match r {
            Some((m, s)) => line_problem(lines@.map_values(|l: Vec<u8>| l@), parsed@, k as int)
                == Some((m@, s)),
            None => line_problem(lines@.map_values(|l: Vec<u8>| l@), parsed@, k as int) is None,
        },
{
    let ghost views = lines@.map_values(|l: Vec<u8>| l@);
    assert(views[k as int] == lines@[k as int]@);
    let line = &parsed[k];
    if lines[k].len() == 0 {
        return Some(("audit JSONL integrity check failed: empty line", None));
    }
    if !line.json {
        return Some(("audit JSONL integrity check failed: invalid JSON line", None));
    }
    if line.schema_version != Some(1u64) {
        return Some(("audit JSONL integrity check failed: unsupported schema version", None));
    }
    let event = match &line.event {
        None => {
            return Some(("audit JSONL integrity check failed: missing event fields", None));
        },
        Some(e) => e,
    };
    if event.sequence <= 0 {
        return Some(("audit JSONL integrity check failed: invalid sequence", Some(event.sequence)));
    }
    if k > 0 {
        proof {
            assert(line_problem(views, parsed@, k - 1) is None);
        }
        let previous = match &parsed[k - 1].event {
            Some(p) => p,
            None => {
                return None;
            },
        };
        if previous.sequence == i64::MAX || event.sequence != previous.sequence + 1 {
            return Some(
                (
                    "audit JSONL integrity check failed: sequence is not contiguous",
                    Some(event.sequence),
                ),
            );
        }
        let linked = match &event.previous_hash {
            Some(h) => str_equals(h.as_str(), previous.hash.as_str()),
            None => false,
        };
        if !linked {
            return Some(
                (
                    "audit JSONL integrity check failed: previous hash does not match",
                    Some(event.sequence),
                ),
            );
        }
    }
    let mut j: usize = 0;
    while j < k
        invariant
            j <= k,
            k < parsed.len(),
            parsed.len() == lines.len(),
            views == lines@.map_values(|l: Vec<u8>| l@),
            sound_prefix(views, parsed@, k as int),
            parsed@[k as int].event == Some(*event),
            forall|i: int| 0 <= i < j ==> (#[trigger] parsed@[i]).event->0.event_id@ != event.event_id@,
        decreases k - j,
    {
        proof {
            assert(line_problem(views, parsed@, j as int) is None);
        }
        match &parsed[j].event {
            Some(other) => {
                if str_equals(other.event_id.as_str(), event.event_id.as_str()) {
                    assert(parsed@[j as int].event->0.event_id@ == event.event_id@);
                    return Some(
                        (
                            "audit JSONL integrity check failed: duplicate event id",
                            Some(event.sequence),
                        ),
                    );
                }
            },
            None => {},
        }
        j = j + 1;
    }
    if !line.object {
        return Some(
            (
                "audit JSONL integrity check failed: event is not an object",
                Some(event.sequence),
            ),
        );
    }
    match &line.hash_input {
        None => Some(
            ("audit JSONL integrity check failed: event cannot be serialized", Some(event.sequence)),
        ),
        Some(input) => {
            let digest = sha256_hex(input.as_slice());
            if !str_equals(digest.as_str(), event.hash.as_str()) {
                Some(
                    (
                        "audit JSONL integrity check failed: hash does not match",
                        Some(event.sequence),
                    ),
                )
            } else {
                None
            }
        },
    }
}

/// What a verification of the log gives: success exactly when every line
/// is sound, with the count and the first and last sequences and the last
/// hash; otherwise the first unsound line's error.
pub open spec fn audit_verification(
    r: Result<AuditVerifyResult, AppError>,
    views: Seq<Seq<u8>>,
    parsed: Seq<AuditLine>,
) -> bool {
    let n = parsed.len() as int;
    &&& r is Ok <==> sound_prefix(views, parsed, n)
    &&& r matches Ok(v) ==> {
        &&& v.valid
        &&& v.event_count == n
        &&& v.first_sequence == if n > 0 {
            Some(parsed[0].event->0.sequence)
        } else {
            None::<i64>
        }
        &&& v.last_sequence == if n > 0 {
            Some(parsed[n - 1].event->0.sequence)
        } else {
            None::<i64>
        }
        &&& opt_text(v.last_hash) == if n > 0 {
            Some(parsed[n - 1].event->0.hash@)
        } else {
            None::<Seq<char>>
        }
    }
    &&& r is Err ==> exists|k: int|
        0 <= k < n && sound_prefix(views, parsed, k) && match line_problem(
            views,
            parsed,
            k,
        ) {
            Some((m, s)) => r matches Err(
                AppError::AuditIntegrity { message, line, sequence },
            ) && message@ == m && line == Some((k + 1) as usize) && sequence == s,
            None => false,
        }
}

/// Verifies the lines of the audit log, in order: each is a JSON object of
/// schema version 1 whose sequence follows the previous one, whose
/// `previous_hash` is the previous line's hash, whose event id is new and
/// whose hash is the SHA-256 of the rest of it. The first line that breaks a
/// rule is reported with its 1-based number.
pub fn verify_audit_lines(lines: &Vec<Vec<u8>>, parsed: &Vec<AuditLine>) -> (r: Result<
    AuditVerifyResult,
    AppError,
>)
    requires
        lines.len() == parsed.len(),
    ensures
        audit_verification(r, lines@.map_values(|l: Vec<u8>| l@), parsed@),
{
    let ghost views = lines@.map_values(|l: Vec<u8>| l@);
    let mut k: usize = 0;
    while k < lines.len()
        invariant
            k <= lines.len(),
            lines.len() == parsed.len(),
            views == lines@.map_values(|l: Vec<u8>| l@),
            sound_prefix(views, parsed@, k as int),
        decreases lines.len() - k,
    {
        match check_line(lines, parsed, k) {
            Some((message, sequence)) => {
                return Err(integrity_error(message, k + 1, sequence));
            },
            None => {},
        }
        k = k + 1;
    }
    let n = parsed.len();
    if n == 0 {
        return Ok(
            AuditVerifyResult {
                valid: true,
                event_count: 0,
                first_sequence: None,
                last_sequence: None,
                last_hash: None,
            },
        );
    }
    proof {
        assert(line_problem(views, parsed@, 0) is None);
        assert(line_problem(views, parsed@, n - 1) is None);
    }
    let (first, last, hash) = match (&parsed[0].event, &parsed[n - 1].event) {
        (Some(f), Some(l)) => (f.sequence, l.sequence, l.hash.clone()),
        _ => {
            return Ok(
                AuditVerifyResult {
                    valid: true,
                    event_count: 0,
                    first_sequence: None,
                    last_sequence: None,
                    last_hash: None,
                },
            );
        },
    };
    Ok(
        AuditVerifyResult {
            valid: true,
            event_count: n,
            first_sequence: Some(first),
            last_sequence: Some(last),
            last_hash: Some(hash),
        },
    )
}

/// An audit event as the audit log writes it: its chain fields and its line.
#[derive(Clone, Debug)]
pub struct JsonlEvent {
    pub sequence: i64,
    pub event_id: String,
    pub previous_hash: Option<String>,
    pub hash: String,
    pub line: String,
}

impl JsonlEvent {
    /// Whether a line already in the log records this event.
    pub fn matches(&self, existing: &ExistingJsonlEvent) -> (b: bool)
        ensures
            b == (self.sequence == existing.sequence && self.event_id@ == existing.event_id@
                && opt_text(self.previous_hash) == opt_text(existing.previous_hash) && self.hash@
                == existing.hash@),
    {
        let previous_equal = match (&self.previous_hash, &existing.previous_hash) {
            (Some(a), Some(b)) => str_equals(a.as_str(), b.as_str()),
            (None, None) => true,
            _ => false,
        };
        self.sequence == existing.sequence && str_equals(
            self.event_id.as_str(),
            existing.event_id.as_str(),
        ) && previous_equal && str_equals(self.hash.as_str(), existing.hash.as_str())
    }
}

/// How long a log stays after repair: up to and with its last newline.
pub open spec fn repaired_length_spec(bytes: Seq<u8>) -> int
    decreases bytes.len(),
{
    if bytes.len() == 0 {
        0
    } else if bytes.last() == 10u8 {
        bytes.len() as int
    } else {
        repaired_length_spec(bytes.drop_last())
    }
}

/// The length to cut a log to when its last line was not finished: a write
/// that stopped halfway leaves a line without its newline, and only that
/// line is dropped.
pub fn repaired_length(bytes: &Vec<u8>) -> (n: usize)
    ensures
        n == repaired_length_spec(bytes@),
{
    let mut k = bytes.len();
    assert(bytes@.take(k as int) =~= bytes@);
    while k > 0 && bytes[k - 1] != 10u8
        invariant
            k <= bytes.len(),
            repaired_length_spec(bytes@) == repaired_length_spec(bytes@.take(k as int)),
        decreases k,
    {
        assert(bytes@.take(k as int).drop_last() =~= bytes@.take(k - 1));
        k = k - 1;
    }
    if k > 0 {
        assert(bytes@.take(k as int).last() == 10u8);
    }
    k
}

/// Whether every sequence of the existing log appears once.
pub fn sequences_unique(sequences: &Vec<i64>) -> (b: bool)
    ensures
        b == sequences@.no_duplicates(),
{
    let mut i: usize = 0;
    while i < sequences.len()
        invariant
            i <= sequences.len(),
            forall|a: int, c: int| 0 <= a < c < i ==> sequences@[a] != sequences@[c],
        decreases sequences.len() - i,
    {
        let mut j: usize = 0;
        while j < i
            invariant
                j <= i < sequences.len(),
                forall|a: int| 0 <= a < j ==> sequences@[a] != sequences@[i as int],
            decreases i - j,
        {
            if sequences[j] == sequences[i] {
                return false;
            }
            j = j + 1;
        }
        i = i + 1;
    }
    true
}

/// The audit log of a database: the database path with its extension
/// replaced by `audit.jsonl`; `stem` is the path without its extension.
pub fn path_for_database(stem: &str) -> (s: String)
    ensures
        s@ == stem@ + ".audit.jsonl"@,
{
    crate::text::concat(stem, ".audit.jsonl")
}

/// An audit event as the database holds it, before it is written to the log.
#[derive(Clone, Debug)]
pub struct SourceAuditEvent {
    pub sequence: i64,
    pub event_id: String,
    pub started_at: String,
    pub finished_at: String,
    pub operation: String,
    pub success: bool,
    pub exit_code: u8,
    pub initiator_kind: Option<String>,
    pub initiator_name: Option<String>,
    pub session_id: Option<String>,
    pub project_id: Option<String>,
    pub target_type: Option<String>,
    pub target_id: Option<String>,
    pub revision: Option<i64>,
    pub changed_fields_json: String,
    pub metadata_json: String,
}

/// The initiator kind that an audit event names; an event without one was
/// made by the system.
pub open spec fn initiator_of(kind: Option<String>) -> Option<InitiatorKind> {
    match kind {
        None => Some(InitiatorKind::System),
        Some(k) => if k@ == "agent"@ {
            Some(InitiatorKind::Agent)
        } else if k@ == "human"@ {
            Some(InitiatorKind::Human)
        } else if k@ == "system"@ {
            Some(InitiatorKind::System)
        } else {
            None
        },
    }
}

/// The members of an audit event's log line before the list of changed
/// fields: the seven that every line has, then the project, the target and
/// the revision where the event has them.
pub open spec fn body_head_len(e: SourceAuditEvent) -> int {
    7 + (if e.project_id is Some {
        1int
    } else {
        0int
    }) + (if e.target_type is Some && e.target_id is Some {
        1int
    } else {
        0int
    }) + (if e.revision is Some {
        1int
    } else {
        0int
    })
}

/// `j` is the log line body of event `e`, whose initiator kind is valid.
pub open spec fn jsonl_body_spec(
    e: SourceAuditEvent,
    previous_hash: Option<Seq<char>>,
    fields: Seq<Seq<char>>,
    error_code: Option<Seq<char>>,
    j: Json,
) -> bool {
    let m = object_members(j);
    let kind = initiator_of(e.initiator_kind)->0;
    let k = body_head_len(e);
    let p = if e.project_id is Some {
        1int
    } else {
        0int
    };
    let t = if e.target_type is Some && e.target_id is Some {
        1int
    } else {
        0int
    };
    let context = object_members(m[6].1);
    let result = object_members(m[k + 1].1);
    &&& j is Object
    &&& m.len() == k + 3
    &&& int_member(m[0], "schema_version"@, 1)
    &&& int_member(m[1], "sequence"@, e.sequence as int)
    &&& text_member(m[2], "event_id"@, Some(e.event_id@))
    &&& text_member(m[3], "started_at"@, Some(e.started_at@))
    &&& text_member(m[4], "finished_at"@, Some(e.finished_at@))
    &&& text_member(m[5], "operation"@, Some(e.operation@))
    &&& m[6].0@ == "context"@ && m[6].1 is Object && context.len() == 4
    &&& text_member(context[0], "kind"@, Some(initiator_kind_name(kind)))
    &&& text_member(context[1], "agent"@, if kind == InitiatorKind::Agent {
        opt_text(e.initiator_name)
    } else {
        None
    })
    &&& text_member(context[2], "session_id"@, opt_text(e.session_id))
    &&& text_member(context[3], "operator"@, if kind == InitiatorKind::Human {
        opt_text(e.initiator_name)
    } else {
        None
    })
    &&& e.project_id matches Some(id) ==> text_member(m[7], "project_id"@, Some(id@))
    &&& (e.target_type is Some && e.target_id is Some) ==> {
        let target = object_members(m[7 + p].1);
        &&& m[7 + p].0@ == "target"@ && m[7 + p].1 is Object && target.len() == 2
        &&& text_member(target[0], "kind"@, Some(e.target_type->0@))
        &&& text_member(target[1], "id"@, Some(e.target_id->0@))
    }
    &&& e.revision matches Some(rev) ==> int_member(m[7 + p + t], "revision"@, rev as int)
    &&& m[k].0@ == "changed_fields"@
    &&& m[k].1 matches Json::Array(list) && list@.len() == fields.len() && forall|i: int|
        0 <= i < fields.len() ==> ((#[trigger] list@[i]) matches Json::Str(f) && f@ == fields[i])
    &&& m[k + 1].0@ == "result"@ && m[k + 1].1 is Object
    &&& text_member(result[0], "outcome"@, Some(if e.success {
        "success"@
    } else {
        "failure"@
    }))
    &&& int_member(result[1], "exit_code"@, e.exit_code as int)
    &&& result.len() == if !e.success && error_code is Some {
        3int
    } else {
        2int
    }
    &&& !e.success && error_code is Some ==> text_member(
        result[2],
        "error_code"@,
        Some(error_code->0),
    )
    &&& text_member(m[k + 2], "previous_hash"@, previous_hash)
}

impl SourceAuditEvent {
    /// The execution context of the event: the initiator's name is the agent
    /// of an agent and the operator of a human.
    pub fn execution_context(&self) -> (r: Result<ExecutionContext, AppError>)
        ensures
            match initiator_of(self.initiator_kind) {
                None => fails_with_internal(r, "audit event initiator kind is invalid"@),
                Some(k) => r matches Ok(c) && c.kind == k && c.agent == (if k
                    == InitiatorKind::Agent {
                    self.initiator_name
                } else {
                    None
                }) && c.operator == (if k == InitiatorKind::Human {
                    self.initiator_name
                } else {
                    None
                }) && c.session_id == self.session_id,
            },
    {
        let kind = match &self.initiator_kind {
            None => InitiatorKind::System,
            Some(k) => if str_equals(k.as_str(), "agent") {
                InitiatorKind::Agent
            } else if str_equals(k.as_str(), "human") {
                InitiatorKind::Human
            } else if str_equals(k.as_str(), "system") {
                InitiatorKind::System
            } else {
                return Err(crate::error::internal("audit event initiator kind is invalid"));
            },
        };
        let agent = if kind == InitiatorKind::Agent {
            crate::domain::clone_opt_string(&self.initiator_name)
        } else {
            None
        };
        let operator = if kind == InitiatorKind::Human {
            crate::domain::clone_opt_string(&self.initiator_name)
        } else {
            None
        };
        Ok(
            ExecutionContext {
                kind,
                agent,
                session_id: crate::domain::clone_opt_string(&self.session_id),
                operator,
            },
        )
    }

    /// The body of the event's log line, without its hash: schema version 1,
    /// the event, its context, target and result, and the hash of the line
    /// before it. `changed_fields` is the event's list as the database holds
    /// it, `None` where that is not a JSON list of texts; `error_code` is the
    /// code recorded with a failure.
    pub fn jsonl_body(
        &self,
        previous_hash: Option<&str>,
        changed_fields: Option<Vec<String>>,
        error_code: Option<String>,
    ) -> (r: Result<Json, AppError>)
        ensures
            initiator_of(self.initiator_kind) is None ==> fails_with_internal(
                r,
                "audit event initiator kind is invalid"@,
            ),
            initiator_of(self.initiator_kind) is Some && changed_fields is None
                ==> fails_with_internal(r, "audit event changed fields are not valid JSON"@),
            initiator_of(self.initiator_kind) is Some && changed_fields is Some ==> (r matches Ok(
                j,
            ) && jsonl_body_spec(
                *self,
                match previous_hash {
                    Some(h) => Some(h@),
                    None => None,
                },
                changed_fields->0@.map_values(|f: String| f@),
                opt_text(error_code),
                j,
            )),
    {
        let context = self.execution_context()?;
        let fields = match changed_fields {
            Some(f) => f,
            None => {
                return Err(crate::error::internal("audit event changed fields are not valid JSON"));
            },
        };
        let mut members: Vec<(String, Json)> = Vec::new();
        members.push(member("schema_version", Json::Int(1)));
        members.push(member("sequence", Json::Int(self.sequence)));
        members.push(member("event_id", Json::Str(self.event_id.clone())));
        members.push(member("started_at", Json::Str(self.started_at.clone())));
        members.push(member("finished_at", Json::Str(self.finished_at.clone())));
        members.push(member("operation", Json::Str(self.operation.clone())));
        let mut c: Vec<(String, Json)> = Vec::new();
        c.push(member("kind", Json::Str(context.kind.as_str().to_owned())));
        c.push(member("agent", crate::json::json_opt_str(opt_str(&context.agent))));
        c.push(member("session_id", crate::json::json_opt_str(opt_str(&context.session_id))));
        c.push(member("operator", crate::json::json_opt_str(opt_str(&context.operator))));
        members.push(member("context", Json::Object(c)));
        if let Some(p) = &self.project_id {
            members.push(member("project_id", Json::Str(p.clone())));
        }
        if let (Some(kind), Some(id)) = (&self.target_type, &self.target_id) {
            let mut t: Vec<(String, Json)> = Vec::new();
            t.push(member("kind", Json::Str(kind.clone())));
            t.push(member("id", Json::Str(id.clone())));
            members.push(member("target", Json::Object(t)));
        }
        if let Some(rev) = self.revision {
            members.push(member("revision", Json::Int(rev)));
        }
        let mut list: Vec<Json> = Vec::new();
        let mut i: usize = 0;
        while i < fields.len()
            invariant
                i <= fields.len(),
                list@.len() == i,
                forall|q: int| 0 <= q < i ==> ((#[trigger] list@[q]) matches Json::Str(f) && f@
                    == fields@[q]@),
            decreases fields.len() - i,
        {
            list.push(Json::Str(fields[i].clone()));
            i = i + 1;
        }
        members.push(member("changed_fields", Json::Array(list)));
        let mut result: Vec<(String, Json)> = Vec::new();
        result.push(
            member(
                "outcome",
                Json::Str(
                    if self.success {
                        "success"
                    } else {
                        "failure"
                    }.to_owned(),
                ),
            ),
        );
        result.push(member("exit_code", Json::Int(self.exit_code as i64)));
        if !self.success {
            if let Some(code) = error_code {
                result.push(member("error_code", Json::Str(code)));
            }
        }
        members.push(member("result", Json::Object(result)));
        members.push(member("previous_hash", crate::json::json_opt_str(previous_hash)));
        Ok(Json::Object(members))
    }
}

fn opt_str(o: &Option<String>) -> (r: Option<&str>)
    ensures
        match r {
            Some(s) => *o matches Some(t) && t@ == s@,
            None => o is None,
        },
{
    match o {
        Some(s) => Some(s.as_str()),
        None => None,
    }
}

/// The text that a document holds, if it is a string.
pub open spec fn text_of(v: Option<Json>) -> Option<Seq<char>> {
    match v {
        Some(Json::Str(t)) => Some(t@),
        _ => None,
    }
}

/// The schema version that a log line names among its members: a
/// non-negative integer.
pub open spec fn members_schema_version(members: Seq<(String, Json)>) -> Option<u64> {
    match opt_int(first_member(members, "schema_version"@)) {
        Some(i) => if i >= 0 {
            Some(i as u64)
        } else {
            None
        },
        None => None,
    }
}

/// The chain fields that a log line holds among its members, when they are
/// well typed: sequence, event id, previous hash and hash. The previous hash
/// may be left out or `null`, both meaning none; the others must be present.
pub open spec fn members_event(members: Seq<(String, Json)>) -> Option<
    (i64, Seq<char>, Option<Seq<char>>, Seq<char>),
> {
    match (
        opt_int(first_member(members, "sequence"@)),
        text_of(first_member(members, "event_id"@)),
        first_member(members, "previous_hash"@),
        text_of(first_member(members, "hash"@)),
    ) {
        (Some(n), Some(id), None, Some(h)) => Some((n, id, None, h)),
        (Some(n), Some(id), Some(Json::Null), Some(h)) => Some((n, id, None, h)),
        (Some(n), Some(id), Some(Json::Str(p)), Some(h)) => Some((n, id, Some(p@), h)),
        _ => None,
    }
}

/// `e` holds the chain fields `d`.
pub open spec fn event_as(
    e: Option<ExistingJsonlEvent>,
    d: Option<(i64, Seq<char>, Option<Seq<char>>, Seq<char>)>,
) -> bool {
    match (e, d) {
        (None, None) => true,
        (Some(x), Some((n, id, p, h))) => x.sequence == n && x.event_id@ == id && opt_text(
            x.previous_hash,
        ) == p && x.hash@ == h,
        _ => false,
    }
}

/// The members of a log line that its hash covers: all but `hash`.
pub open spec fn without_hash(members: Seq<(String, Json)>) -> Seq<(String, Json)> {
    members.filter(|m: (String, Json)| m.0@ != "hash"@)
}

/// `a` is what a log line whose JSON document is `doc` reads as: its schema
/// version and chain fields, whether it is an object, and, for an object,
/// the JSON text of its members but `hash`, which its hash covers.
pub open spec fn reads_as(a: AuditLine, doc: Option<Json>) -> bool {
    match doc {
        None => !a.json && a.schema_version is None && a.event is None && !a.object
            && a.hash_input is None,
        Some(j) => {
            &&& a.json
            &&& a.schema_version == members_schema_version(object_members(j))
            &&& event_as(a.event, members_event(object_members(j)))
            &&& a.object == (j is Object)
            &&& if j is Object {
                a.hash_input matches Some(b) && exists|o: Json|
                    o is Object && object_members(o) == without_hash(object_members(j)) && b@
                        == #[trigger] json_text(o)
            } else {
                a.hash_input is None
            }
        },
    }
}

fn read_event(members: &Vec<(String, Json)>) -> (e: Option<ExistingJsonlEvent>)
    ensures
        event_as(e, members_event(members@)),
{
    let sequence = match find_member(members, "sequence") {
        Some(j) => match read_int(j) {
            Some(n) => n,
            None => {
                return None;
            },
        },
        None => {
            return None;
        },
    };
    let event_id = match find_member(members, "event_id") {
        Some(Json::Str(t)) => t.clone(),
        _ => {
            return None;
        },
    };
    let previous_hash = match find_member(members, "previous_hash") {
        None => None,
        Some(Json::Null) => None,
        Some(Json::Str(t)) => Some(t.clone()),
        _ => {
            return None;
        },
    };
    let hash = match find_member(members, "hash") {
        Some(Json::Str(t)) => t.clone(),
        _ => {
            return None;
        },
    };
    Some(ExistingJsonlEvent { sequence, event_id, previous_hash, hash })
}

fn drop_member(members: Vec<(String, Json)>, name: &str) -> (r: Vec<(String, Json)>)
    ensures
        r@ == members@.filter(|m: (String, Json)| m.0@ != name@),
{
    let ghost all = members@;
    let n = members.len();
    let mut rest = members;
    let mut kept: Vec<(String, Json)> = Vec::new();
    let mut k: usize = 0;
    assert(all.skip(0) =~= all);
    while rest.len() > 0
        invariant
            k <= all.len(),
            all.len() == n,
            rest@.len() + k == all.len(),
            rest@ == all.skip(k as int),
            kept@ == all.take(k as int).filter(|m: (String, Json)| m.0@ != name@),
        decreases rest.len(),
    {
        let m = rest.remove(0);
        proof {
            assert(all.take(k + 1).drop_last() =~= all.take(k as int));
            assert(all.skip(k as int).drop_first() =~= all.skip(k + 1));
            reveal(Seq::filter);
        }
        if !str_equals(m.0.as_str(), name) {
            kept.push(m);
        }
        k = k + 1;
    }
    assert(all.take(k as int) =~= all);
    kept
}

/// Reads one line of the audit log as its JSON document.
pub fn read_audit_line(line: &Vec<u8>) -> (a: AuditLine)
    ensures
        reads_as(a, json_document(line@)),
{
    let doc = parse_json(line.as_slice());
    let j = match doc {
        None => {
            return AuditLine {
                json: false,
                schema_version: None,
                event: None,
                object: false,
                hash_input: None,
            };
        },
        Some(j) => j,
    };
    match j {
        Json::Object(members) => {
            let schema_version = match find_member(&members, "schema_version") {
                Some(j) => match read_int(j) {
                    Some(i) => if i >= 0 {
                        Some(i as u64)
                    } else {
                        None
                    },
                    None => None,
                },
                None => None,
            };
            let event = read_event(&members);
            let without = drop_member(members, "hash");
            let obj = Json::Object(without);
            let input = json_bytes(&obj);
            proof {
                reveal_strlit("hash");
                assert(object_members(obj) == without_hash(object_members(json_document(line@)->0)));
            }
            AuditLine { json: true, schema_version, event, object: true, hash_input: Some(input) }
        },
        _ => AuditLine {
            json: true,
            schema_version: None,
            event: None,
            object: false,
            hash_input: None,
        },
    }
}

/// The lines of the log read as their documents.
pub open spec fn lines_read(lines: Seq<Seq<u8>>, parsed: Seq<AuditLine>) -> bool {
    &&& parsed.len() == lines.len()
    &&& forall|k: int| 0 <= k < lines.len() ==> reads_as(#[trigger] parsed[k], json_document(lines[k]))
}

/// Verifies the audit log from its bytes: it must end with a newline; its
/// lines, read as JSON, are then verified in order.
pub fn verify_audit_bytes(bytes: &Vec<u8>) -> (r: Result<AuditVerifyResult, AppError>)
    ensures
        bytes@.len() > 0 && bytes@.last() != 10u8 ==> (r matches Err(
            AppError::AuditIntegrity { message, line, sequence },
        ) && message@ == "audit JSONL integrity check failed: incomplete final line"@ && line
            == Some((newline_count(bytes@) + 1) as usize) && sequence is None),
        !(bytes@.len() > 0 && bytes@.last() != 10u8) ==> exists|
            lines: Seq<Seq<u8>>,
            parsed: Seq<AuditLine>,
        |
            #![trigger audit_verification(r, lines, parsed)]
            {
                &&& join_lines(lines) == bytes@
                &&& forall|k: int| 0 <= k < lines.len() ==> has_no_newline(#[trigger] lines[k])
                &&& lines_read(lines, parsed)
                &&& audit_verification(r, lines, parsed)
            },
{
    let lines = split_jsonl(bytes)?;
    let mut parsed: Vec<AuditLine> = Vec::new();
    let mut k: usize = 0;
    while k < lines.len()
        invariant
            k <= lines.len(),
            parsed@.len() == k,
            forall|q: int| 0 <= q < k ==> reads_as(#[trigger] parsed@[q], json_document(lines@[q]@)),
        decreases lines.len() - k,
    {
        parsed.push(read_audit_line(&lines[k]));
        k = k + 1;
    }
    let r = verify_audit_lines(&lines, &parsed);
    proof {
        let views = lines@.map_values(|l: Vec<u8>| l@);
        assert forall|q: int| 0 <= q < views.len() implies reads_as(
            #[trigger] parsed@[q],
            json_document(views[q]),
        ) by {}
        assert(lines_read(views, parsed@));
        assert(audit_verification(r, views, parsed@));
    }
    r
}

/// The texts that a document lists, when it is a list of texts only.
pub open spec fn text_list(doc: Option<Json>) -> Option<Seq<Seq<char>>> {
    match doc {
        Some(Json::Array(items)) => if forall|i: int| 0 <= i < items@.len() ==> (#[trigger] items@[i]) is Str {
            Some(items@.map_values(|x: Json| text_of(Some(x))->0))
        } else {
            None
        },
        _ => None,
    }
}

/// The error code that a failure's metadata records.
pub open spec fn error_code_of(doc: Option<Json>) -> Option<Seq<char>> {
    match doc {
        Some(j) => text_of(member_of(j, "error_code"@)),
        None => None,
    }
}

#[verifier::loop_isolation(false)]
pub(crate) fn text_list_of(doc: Option<Json>) -> (r: Option<Vec<String>>)
    ensures
        match r {
            Some(v) => text_list(doc) == Some(v@.map_values(|s: String| s@)),
            None => text_list(doc) is None,
        },
{
    let items = match doc {
        Some(Json::Array(items)) => items,
        _ => {
            return None;
        },
    };
    let mut v: Vec<String> = Vec::new();
    let mut i: usize = 0;
    while i < items.len()
        invariant
            i <= items.len(),
            v@.len() == i,
            forall|q: int| 0 <= q < i ==> (#[trigger] items@[q]) is Str,
            forall|q: int| 0 <= q < i ==> #[trigger] v@[q]@ == text_of(Some(items@[q]))->0,
        decreases items.len() - i,
    {
        match &items[i] {
            Json::Str(t) => v.push(t.clone()),
            _ => {
                assert(!(items@[i as int] is Str));
                return None;
            },
        }
        i = i + 1;
    }
    assert(v@.map_values(|s: String| s@) =~= items@.map_values(|x: Json| text_of(Some(x))->0));
    Some(v)
}

fn error_code_from(doc: Option<Json>) -> (r: Option<String>)
    ensures
        opt_text(r) == error_code_of(doc),
{
    match doc {
        Some(Json::Object(members)) => match find_member(&members, "error_code") {
            Some(Json::Str(t)) => Some(t.clone()),
            _ => None,
        },
        _ => None,
    }
}

/// The changed fields that an event's stored list gives, if it is a JSON
/// list of texts.
pub open spec fn event_fields(e: SourceAuditEvent) -> Option<Seq<Seq<char>>> {
    text_list(json_document(encode_utf8(e.changed_fields_json@)))
}

/// The error code that a failed event recorded in its metadata.
pub open spec fn event_error_code(e: SourceAuditEvent) -> Option<Seq<char>> {
    if e.success {
        None
    } else {
        error_code_of(json_document(encode_utf8(e.metadata_json@)))
    }
}

/// `line` is the log line of `body` with `hash` added: the member `hash`
/// after the body's members, written as JSON text.
pub open spec fn line_with_hash(body: Json, hash: Seq<char>, line: Seq<u8>) -> bool {
    exists|full: Json|
        {
            &&& full is Object
            &&& object_members(full).len() == object_members(body).len() + 1
            &&& object_members(full).take(object_members(body).len() as int) == object_members(body)
            &&& text_member(object_members(full)[object_members(body).len() as int], "hash"@, Some(hash))
            &&& line == #[trigger] json_text(full)
        }
}

/// The log line of an audit event chained to the line before it: its hash,
/// the SHA-256 of the JSON text of its body, and the line, the body with
/// that hash added.
pub fn jsonl_line(event: &SourceAuditEvent, previous_hash: Option<&str>) -> (r: Result<
    (String, Vec<u8>),
    AppError,
>)
    ensures
        initiator_of(event.initiator_kind) is None ==> fails_with_internal(
            r,
            "audit event initiator kind is invalid"@,
        ),
        initiator_of(event.initiator_kind) is Some && event_fields(*event) is None
            ==> fails_with_internal(r, "audit event changed fields are not valid JSON"@),
        initiator_of(event.initiator_kind) is Some && event_fields(*event) is Some ==> (r matches Ok(
            (hash, line),
        ) && exists|body: Json|
            {
                &&& jsonl_body_spec(
                    *event,
                    match previous_hash {
                        Some(h) => Some(h@),
                        None => None,
                    },
                    event_fields(*event)->0,
                    event_error_code(*event),
                    body,
                )
                &&& hash@ == hex_spec(sha256(#[trigger] json_text(body)))
                &&& line_with_hash(body, hash@, line@)
            }),
{
    let fields = text_list_of(parse_json(event.changed_fields_json.as_str().as_bytes()));
    let error_code = if event.success {
        None
    } else {
        error_code_from(parse_json(event.metadata_json.as_str().as_bytes()))
    };
    let body = event.jsonl_body(previous_hash, fields, error_code)?;
    let text = json_bytes(&body);
    let hash = sha256_hex(text.as_slice());
    let ghost b = body;
    let mut members = match body {
        Json::Object(m) => m,
        _ => {
            assert(false);
            Vec::new()
        },
    };
    members.push(member("hash", Json::Str(hash.clone())));
    let full = Json::Object(members);
    let line = json_bytes(&full);
    proof {
        assert(object_members(full).take(object_members(b).len() as int) =~= object_members(b));
    }
    Ok((hash, line))
}

} // verus!
