//! Checks on identifiers and prompts received from clients, and fresh
//! session identifiers.

use vstd::prelude::*;
use vstd::utf8::encode_utf8;
use crate::text::contains_char;

verus! {

/// The length of `s` in UTF-8 bytes, as `str::len` reports it.
pub open spec fn byte_len(s: Seq<char>) -> usize {
    encode_utf8(s).len() as usize
}

/// The longest agent id accepted, in bytes.
pub const MAX_AGENT_ID_LEN: usize = 100;

/// The longest prompt accepted, in bytes.
pub const MAX_PROMPT_LEN: usize = 100000;

/// The length of a session id, in bytes.
pub const SESSION_ID_LEN: usize = 36;

/// An agent id is accepted: not empty, and at most 100 bytes.
pub fn validate_agent_id(id: &str) -> (r: Result<(), String>)
    ensures
        id@.len() == 0 ==> (r matches Err(m) && m@ == "agent_id cannot be empty"@),
        id@.len() > 0 && byte_len(id@) > MAX_AGENT_ID_LEN ==> (r matches Err(m) && m@ == "agent_id too long (max 100 chars)"@),
        r is Ok <==> (id@.len() > 0 && byte_len(id@) <= MAX_AGENT_ID_LEN),
{
    if id.is_empty() {
        return Err("agent_id cannot be empty".to_owned());
    }
    if id.len() > MAX_AGENT_ID_LEN {
        return Err("agent_id too long (max 100 chars)".to_owned());
    }
    Ok(())
}

/// The shape that a session id must have: not empty, 36 bytes, with a `-`.
pub open spec fn session_id_shape(id: Seq<char>) -> bool {
    &&& id.len() > 0
    &&& byte_len(id) == SESSION_ID_LEN
    &&& id.contains('-')
}

/// A session id is accepted: not empty, 36 bytes long and holding a `-`.
pub fn validate_session_id(id: &str) -> (r: Result<(), String>)
    ensures
        id@.len() == 0 ==> (r matches Err(m) && m@ == "session_id cannot be empty"@),
        id@.len() > 0 && !session_id_shape(id@) ==> (r matches Err(m) && m@ == "invalid session_id format"@),
        r is Ok <==> session_id_shape(id@),
{
    if id.is_empty() {
        return Err("session_id cannot be empty".to_owned());
    }
    if id.len() != SESSION_ID_LEN || !contains_char(id, '-') {
        return Err("invalid session_id format".to_owned());
    }
    Ok(())
}

/// A prompt is accepted: not empty, and at most 100000 bytes.
pub fn validate_prompt(prompt: &str) -> (r: Result<(), String>)
    ensures
        prompt@.len() == 0 ==> (r matches Err(m) && m@ == "prompt cannot be empty"@),
        prompt@.len() > 0 && byte_len(prompt@) > MAX_PROMPT_LEN ==> (r matches Err(m) && m@ == "prompt too long (max 100KB)"@),
        r is Ok <==> (prompt@.len() > 0 && byte_len(prompt@) <= MAX_PROMPT_LEN),
{
    if prompt.is_empty() {
        return Err("prompt cannot be empty".to_owned());
    }
    if prompt.len() > MAX_PROMPT_LEN {
        return Err("prompt too long (max 100KB)".to_owned());
    }
    Ok(())
}

/// A lower-case hexadecimal digit.
pub open spec fn is_lower_hex(c: char) -> bool {
    ('0' <= c <= '9') || ('a' <= c <= 'f')
}

/// The hyphenated form of a UUID: 36 characters, `-` at positions 8, 13,
/// 18 and 23, lower-case hexadecimal digits elsewhere.
pub open spec fn hyphenated_uuid(s: Seq<char>) -> bool {
    &&& s.len() == 36
    &&& forall|i: int|
        0 <= i < 36 ==> if i == 8 || i == 13 || i == 18 || i == 23 {
            #[trigger] s[i] == '-'
        } else {
            is_lower_hex(s[i])
        }
}

/// A random (version 4) UUID in hyphenated form.
/// Trusted: `uuid::Uuid::new_v4`, written out by its `Display` impl, which
/// formats a UUID as 32 lower-case hex digits in groups of 8-4-4-4-12
/// separated by `-`. The digits are random, and nothing is stated of them.
#[verifier::external_body]
fn random_uuid() -> (s: String)
    ensures
        hyphenated_uuid(s@),
{
    uuid::Uuid::new_v4().to_string()
}

/// A fresh session id: a random UUID in hyphenated form, which the session
/// id check accepts.
pub fn new_session_id() -> (id: String)
    ensures
        hyphenated_uuid(id@),
        session_id_shape(id@),
{
    let id = random_uuid();
    proof {
        lemma_uuid_shape(id@);
    }
    id
}

/// A hyphenated UUID has the shape of a session id.
pub proof fn lemma_uuid_shape(s: Seq<char>)
    requires
        hyphenated_uuid(s),
    ensures
        session_id_shape(s),
{
    assert(s[8] == '-');
    assert forall|i: int| 0 <= i < s.len() implies '\0' <= #[trigger] s[i] <= '\u{7f}' by {
        if i == 8 || i == 13 || i == 18 || i == 23 {
            assert(s[i] == '-');
        } else {
            assert(is_lower_hex(s[i]));
        }
    }
    vstd::utf8::is_ascii_chars_encode_utf8(s);
}

} // verus!
