//! Git worktree contexts: what the output of `git` says of a path. Running
//! `git` and resolving paths is the caller's part.
use crate::domain::{opt_string_view, WorktreeContext};
use crate::error::{fails_with_input, AppError};
use crate::text::{concat, string_from_utf8, trim, trim_str};
use vstd::prelude::*;
use vstd::utf8::{decode_utf8, encode_utf8, valid_utf8};

verus! {

broadcast use {vstd::utf8::encode_utf8_valid_utf8, vstd::utf8::encode_utf8_decode_utf8};

/// The value that a `git` command printed: its output without the
/// whitespace around it, or nothing when only whitespace was printed.
pub open spec fn git_value_spec(stdout: Seq<u8>) -> Option<Seq<char>> {
    let text = trim(decode_utf8(stdout));
    if text.len() == 0 {
        None
    } else {
        Some(text)
    }
}

/// Reads the output of a successful `git` command, which must be UTF-8.
pub fn git_output_value(stdout: Vec<u8>) -> (r: Result<Option<String>, AppError>)
    ensures
        !valid_utf8(stdout@) ==> fails_with_input(r, "Git output must be valid Unicode"@),
        valid_utf8(stdout@) ==> (r matches Ok(v) && opt_string_view(v) == git_value_spec(stdout@)),
{
    let ghost bytes = stdout@;
    match string_from_utf8(stdout) {
        Some(text) => {
            proof {
                assert(decode_utf8(encode_utf8(text@)) == text@);
            }
            let value = trim_str(text.as_str());
            if value.as_str().unicode_len() == 0 {
                Ok(None)
            } else {
                Ok(Some(value))
            }
        },
        None => {
            proof {
                if valid_utf8(bytes) {
                    vstd::utf8::decode_utf8_encode_utf8(bytes);
                    assert(encode_utf8(decode_utf8(bytes)) == bytes);
                }
            }
            Err(AppError::InvalidInput(String::from_str("Git output must be valid Unicode")))
        },
    }
}

/// The worktree of a path that must lie inside one: `resolved` is what
/// `git` found for the path shown as `display`.
pub fn from_path(display: &str, resolved: Option<WorktreeContext>) -> (r: Result<
    WorktreeContext,
    AppError,
>)
    ensures
        resolved matches Some(c) ==> r == Ok::<WorktreeContext, AppError>(c),
        resolved is None ==> fails_with_input(
            r,
            "path is not inside a Git worktree: "@ + display@,
        ),
{
    match resolved {
        Some(c) => Ok(c),
        None => Err(AppError::InvalidInput(concat("path is not inside a Git worktree: ", display))),
    }
}

} // verus!
