use vstd::prelude::*;
use vstd::utf8::{encode_utf8, is_ascii_chars, is_ascii_chars_encode_utf8};
use crate::permission::{identifier, Permission};
use crate::status::{lemma_phrases_distinct, status_of, PermissionStatus};

verus! {

/// Why a status query could not be made.
#[derive(Debug, Clone, Copy, PartialEq, Eq, Structural)]
pub enum PermissionError {
    /// The identifier holds a NUL byte, so it has no C string form.
    Encoding,
}

/// Whether a byte string holds a NUL byte.
pub open spec fn has_nul(b: Seq<u8>) -> bool {
    exists|i: int| 0 <= i < b.len() && b[i] == 0
}

/// The C string form of an identifier: its UTF-8 bytes followed by a NUL
/// terminator.
pub open spec fn c_string_of(id: Seq<char>) -> Seq<u8> {
    encode_utf8(id).push(0)
}

/// Frames an identifier as a NUL-terminated byte string for the status source.
/// Fails with `Encoding` exactly when the identifier's bytes already hold a NUL.
pub fn encode_identifier(identifier: &str) -> (r: Result<Vec<u8>, PermissionError>)
    ensures
        r is Ok <==> !has_nul(encode_utf8(identifier@)),
        r is Ok ==> r->Ok_0@ == c_string_of(identifier@),
        r is Err ==> r->Err_0 == PermissionError::Encoding,
{
    let mut bytes = identifier.as_bytes_vec();
    let n = bytes.len();
    let mut i: usize = 0;
    while i < n
        invariant
            n == bytes@.len(),
            bytes@ == encode_utf8(identifier@),
            i <= n,
            forall|j: int| 0 <= j < i ==> bytes@[j] != 0,
        decreases n - i,
    {
        if bytes[i] == 0 {
            return Err(PermissionError::Encoding);
        }
        i = i + 1;
    }
    bytes.push(0);
    Ok(bytes)
}

/// Identifiers are plain ASCII without NUL characters.
proof fn lemma_identifier_plain(p: Permission)
    ensures
        is_ascii_chars(identifier(p)),
        forall|i: int| 0 <= i < identifier(p).len() ==> identifier(p)[i] != '\0',
{
    reveal_strlit("calendar");
    reveal_strlit("contacts");
    reveal_strlit("full-disk-access");
    reveal_strlit("photos");
    reveal_strlit("reminders");
    reveal_strlit("accessibility");
    reveal_strlit("bluetooth");
    reveal_strlit("camera");
    reveal_strlit("input-monitoring");
    reveal_strlit("microphone");
    reveal_strlit("screen-capture");
    reveal_strlit("speech-recognition");
}

/// No identifier's bytes hold a NUL, so every identifier has a C string form.
proof fn lemma_identifier_encodable(p: Permission)
    ensures
        !has_nul(encode_utf8(identifier(p))),
{
    let id = identifier(p);
    lemma_identifier_plain(p);
    is_ascii_chars_encode_utf8(id);
    assert forall|i: int| 0 <= i < encode_utf8(id).len() implies encode_utf8(id)[i] != 0 by {
        assert(id[i] as u8 == encode_utf8(id)[i]);
        assert(id[i] != '\0');
        assert((id[i] as u32) < 128);
    }
}

/// The request that asks the status source about `permission`: its
/// identifier as a C string. Identifiers never hold a NUL, so this succeeds.
pub fn status_request(permission: Permission) -> (r: Result<Vec<u8>, PermissionError>)
    ensures
        r is Ok,
        r->Ok_0@ == c_string_of(identifier(permission)),
{
    proof {
        lemma_identifier_encodable(permission);
    }
    encode_identifier(permission.to_str())
}

/// Whether a status query came out as "authorized". A failed query counts as
/// "not determined", so this never reports an error: it is true exactly when
/// the query succeeded with text that reads as `Authorized`.
pub fn has_permission(outcome: &Result<String, PermissionError>) -> (r: bool)
    ensures
        r == (outcome is Ok && status_of(outcome->Ok_0@) == PermissionStatus::Authorized),
{
    let text: &str = match outcome {
        Ok(raw) => raw.as_str(),
        Err(_) => "not determined",
    };
    proof {
        lemma_phrases_distinct();
    }
    PermissionStatus::from(text) == PermissionStatus::Authorized
}

} // verus!
