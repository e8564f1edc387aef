//! Rendering decoded byte fields as text.
//!
//! Wire strings arrive as raw bytes; nothing guarantees they are valid
//! UTF-8.  Rendering substitutes invalid sequences lossily rather than
//! failing, so malformed text never costs a record; `validate_text`
//! reports it separately for callers that want to track it.

use vstd::prelude::*;
use vstd::utf8::decode_utf8;
use vstd::utf8::valid_utf8;

use crate::bytes::read_cstr;
use crate::bytes::take_to_nul;
use crate::event::Event;
use crate::event::ParseError;
use crate::utf8::is_valid_text;

verus! {

/// The text that lossy substitution makes of `s`: a pure function of the
/// bytes alone, equal to their decoding whenever they are valid UTF-8.
pub uninterp spec fn lossy_text_of(s: Seq<u8>) -> Seq<char>;

/// Relies on String::from_utf8_lossy (and Cow::into_owned): the result
/// depends on the bytes alone, and bytes that already form valid UTF-8
/// come through as exactly their decoding.
#[verifier::external_body]
fn utf8_lossy(bytes: &[u8]) -> (r: String)
    ensures
        r@ == lossy_text_of(bytes@),
        valid_utf8(bytes@) ==> r@ == decode_utf8(bytes@),
{
    String::from_utf8_lossy(bytes).into_owned()
}

/// Decode a NUL-terminated string field: the bytes of `buf` before its
/// first zero byte (all of `buf` when it holds none), rendered as text
/// with lossy substitution for invalid encodings.
pub fn cstr_to_string(buf: &[u8]) -> (r: String)
    ensures
        r@ == lossy_text_of(take_to_nul(buf@)),
        valid_utf8(take_to_nul(buf@)) ==> r@ == decode_utf8(take_to_nul(buf@)),
{
    let n = buf.len();
    let trunc = read_cstr(buf, 0, n);
    proof {
        assert(buf@.subrange(0, n as int) =~= buf@);
    }
    utf8_lossy(trunc.as_slice())
}

/// Decode a NUL-terminated string field; same reading as `cstr_to_string`.
pub fn to_string(bytes: &[u8]) -> (r: String)
    ensures
        r@ == lossy_text_of(take_to_nul(bytes@)),
        valid_utf8(take_to_nul(bytes@)) ==> r@ == decode_utf8(take_to_nul(bytes@)),
{
    cstr_to_string(bytes)
}

/// Decode a NUL-terminated string field; same reading as
/// `cstr_to_string`, whether or not the window holds a terminator.
pub fn cstr_to_str(buf: &[u8]) -> (r: String)
    ensures
        r@ == lossy_text_of(take_to_nul(buf@)),
        valid_utf8(take_to_nul(buf@)) ==> r@ == decode_utf8(take_to_nul(buf@)),
{
    cstr_to_string(buf)
}

/// Every string field of `e` is valid text, so lossy rendering changes
/// nothing.
pub open spec fn event_text_valid(e: Event) -> bool {
    match e {
        Event::ProcessExec { command, path, .. } => {
            &&& valid_utf8(command@)
            &&& valid_utf8(path@)
        },
        Event::NetworkConnect { command, .. } => valid_utf8(command@),
        Event::FileOperation { command, path, .. } => {
            &&& valid_utf8(command@)
            &&& valid_utf8(path@)
        },
        Event::SyscallDecision { command, original_path, modified_path, reason, .. } => {
            &&& valid_utf8(command@)
            &&& valid_utf8(original_path@)
            &&& valid_utf8(modified_path@)
            &&& valid_utf8(reason@)
        },
        Event::MemoryViolation { command, violation_type, .. } => {
            &&& valid_utf8(command@)
            &&& valid_utf8(violation_type@)
        },
    }
}

/// Report malformed text in a decoded event: `Err(MalformedText)` exactly
/// when some string field is not valid text.  Decoding itself never fails
/// on this — the bytes are kept, and substituted lossily only when
/// rendered — but the condition is reported here so it can be tracked.
pub fn validate_text(e: &Event) -> (r: Result<(), ParseError>)
    ensures
        r is Ok <==> event_text_valid(*e),
        r is Err ==> r == Err::<(), ParseError>(ParseError::MalformedText),
{
    let ok = match e {
        Event::ProcessExec { command, path, .. } => {
            is_valid_text(command.as_slice()) && is_valid_text(path.as_slice())
        },
        Event::NetworkConnect { command, .. } => is_valid_text(command.as_slice()),
        Event::FileOperation { command, path, .. } => {
            is_valid_text(command.as_slice()) && is_valid_text(path.as_slice())
        },
        Event::SyscallDecision { command, original_path, modified_path, reason, .. } => {
            is_valid_text(command.as_slice()) && is_valid_text(original_path.as_slice())
                && is_valid_text(modified_path.as_slice()) && is_valid_text(reason.as_slice())
        },
        Event::MemoryViolation { command, violation_type, .. } => {
            is_valid_text(command.as_slice()) && is_valid_text(violation_type.as_slice())
        },
    };
    if ok {
        Ok(())
    } else {
        Err(ParseError::MalformedText)
    }
}

} // verus!
