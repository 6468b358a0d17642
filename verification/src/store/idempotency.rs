//! Retry-safe writes: a request under an idempotency key is identified by
//! its operation and the SHA-256 of its canonical payload, and a retry
//! replays the stored result.
use crate::domain::{idempotency_key_error, validate_idempotency_key};
use crate::error::{fails_with_input, AppError};
use crate::json::{json_bytes, json_text, Json};
use crate::store::jsonl::{hex_spec, sha256, sha256_hex};
use crate::text::str_equals;
use vstd::prelude::*;

verus! {

/// A write made under an idempotency key.
#[derive(Clone, Debug)]
pub struct IdempotencyRequest {
    pub key: String,
    pub operation: String,
    /// The SHA-256 of the canonical JSON payload, in lowercase hexadecimal.
    pub request_hash: String,
}

/// The hash that identifies a payload.
pub open spec fn payload_hash(payload: Seq<u8>) -> Seq<char> {
    hex_spec(sha256(payload))
}

impl IdempotencyRequest {
    /// The request for `operation` under `key`, identified by its canonical
    /// JSON payload; the key must be valid.
    pub fn new(key: &str, operation: &str, canonical_payload: &[u8]) -> (r: Result<Self, AppError>)
        ensures
            match idempotency_key_error(key@) {
                Some(m) => fails_with_input(r, m),
                None => r matches Ok(q) && q.key@ == key@ && q.operation@ == operation@
                    && q.request_hash@ == payload_hash(canonical_payload@),
            },
    {
        validate_idempotency_key(key)?;
        let request_hash = sha256_hex(canonical_payload);
        Ok(
            IdempotencyRequest {
                key: key.to_owned(),
                operation: operation.to_owned(),
                request_hash,
            },
        )
    }

    /// The request for `operation` under `key`, identified by a payload
    /// document: its hash is that of the document's canonical JSON text,
    /// whose object keys come out sorted.
    pub fn for_payload(key: &str, operation: &str, payload: &Json) -> (r: Result<Self, AppError>)
        ensures
            match idempotency_key_error(key@) {
                Some(m) => fails_with_input(r, m),
                None => r matches Ok(q) && q.key@ == key@ && q.operation@ == operation@
                    && q.request_hash@ == payload_hash(json_text(*payload)),
            },
    {
        let canonical = json_bytes(payload);
        Self::new(key, operation, canonical.as_slice())
    }
}

/// A stored record answers `request` when it was made by the same operation
/// with the same payload.
pub open spec fn record_matches(request: IdempotencyRequest, operation: Seq<char>, hash: Seq<char>) -> bool {
    operation == request.operation@ && hash == request.request_hash@
}

/// What the store does with a request whose key it may have seen: run it
/// (`false`) when the key is new, replay the stored result (`true`) when the
/// record matches, and refuse it when the key was used otherwise.
pub fn check_idempotency_record(request: &IdempotencyRequest, stored: Option<(&str, &str)>) -> (r:
    Result<bool, AppError>)
    ensures
        match stored {
            None => r == Ok::<bool, AppError>(false),
            Some((operation, hash)) => if record_matches(*request, operation@, hash@) {
                r == Ok::<bool, AppError>(true)
            } else {
                r matches Err(AppError::IdempotencyConflict)
            },
        },
{
    match stored {
        None => Ok(false),
        Some((operation, hash)) => {
            if !str_equals(operation, request.operation.as_str()) || !str_equals(
                hash,
                request.request_hash.as_str(),
            ) {
                return Err(AppError::IdempotencyConflict);
            }
            Ok(true)
        },
    }
}

/// A retry of a request, under the same key with the same operation and
/// payload, finds the record of the first and replays it; the same key with
/// another operation or payload hash is refused.
pub proof fn law_retry_replays(first: IdempotencyRequest, retry: IdempotencyRequest)
    requires
        retry.key@ == first.key@,
    ensures
        retry.operation@ == first.operation@ && retry.request_hash@ == first.request_hash@
            ==> record_matches(retry, first.operation@, first.request_hash@),
        retry.operation@ != first.operation@ || retry.request_hash@ != first.request_hash@
            ==> !record_matches(retry, first.operation@, first.request_hash@),
{
}

} // verus!
