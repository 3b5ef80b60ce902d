//! What every call to a backend has in common: the service credential that
//! goes out with it, and the unwrapping of what comes back.

use vstd::prelude::*;
use vstd::string::*;
use crate::error::{ResError, RpcCode};
use crate::text::chars_of;

verus! {

/// A failed remote call: its status code, its status message, and its full
/// rendering, which is kept as the internal detail of the error.
#[derive(Debug)]
pub struct RpcStatus {
    pub code: RpcCode,
    pub message: String,
    pub detail: String,
}

/// Name of the metadata entry that carries the service credential.
pub open spec fn authorization_key() -> Seq<char> {
    "authorization"@
}

/// The value of the authorization entry for a service credential.
pub open spec fn bearer_of(service_token: Seq<char>) -> Seq<char> {
    "Bearer "@ + service_token
}

/// Whether a character may stand in the value of a metadata entry: every
/// character but the control characters, and the tab.
pub open spec fn is_header_char(c: char) -> bool {
    (c as u32 >= 32 && c as u32 != 127) || c as u32 == 9
}

/// Whether a text may be the value of a metadata entry.
pub open spec fn is_header_text(text: Seq<char>) -> bool {
    forall|i: int| 0 <= i < text.len() ==> is_header_char(#[trigger] text[i])
}

/// Detail of the error for a service credential that cannot be sent.
pub open spec fn invalid_credential_text() -> Seq<char> {
    "failed to parse header value"@
}

/// Whether a text may be the value of a metadata entry.
pub fn check_header_text(text: &str) -> (ok: bool)
    ensures
        ok == is_header_text(text@),
{
    let chars = chars_of(text);
    let mut i: usize = 0;
    while i < chars.len()
        invariant
            i <= chars.len(),
            chars@ == text@,
            forall|j: int| 0 <= j < i ==> is_header_char(#[trigger] chars@[j]),
        decreases chars.len() - i,
    {
        let code = chars[i] as u32;
        if !((code >= 32 && code != 127) || code == 9) {
            return false;
        }
        i = i + 1;
    }
    true
}

/// The metadata entry, name and value, that authorizes an outgoing call
/// with the given service credential. A credential that holds a control
/// character cannot be sent: that is a `ServerError`.
pub fn authorization_entry(service_token: &str) -> (res: Result<(&'static str, String), ResError>)
    ensures
        match res {
            Ok(entry) => {
                &&& is_header_text(service_token@)
                &&& entry.0@ == authorization_key()
                &&& entry.1@ == bearer_of(service_token@)
                &&& is_header_text(entry.1@)
            },
            Err(e) => {
                &&& !is_header_text(service_token@)
                &&& e is ServerError
                &&& e.detail() == invalid_credential_text()
            },
        },
{
    if check_header_text(service_token) {
        let mut value = String::from_str("Bearer ");
        value.append(service_token);
        proof {
            reveal_strlit("Bearer ");
            let prefix = "Bearer "@;
            assert(prefix.len() == 7);
            assert forall|i: int| 0 <= i < value@.len() implies is_header_char(
                #[trigger] value@[i],
            ) by {
                if i >= 7 {
                    assert(value@[i] == service_token@[i - 7]);
                } else {
                    assert(value@[i] == prefix[i]);
                }
            }
        }
        Ok(("authorization", value))
    } else {
        Err(ResError::ServerError(String::from_str("failed to parse header value")))
    }
}

/// Unwraps the outcome of a remote call: the payload where it succeeded,
/// else the error kind that the remote status maps to.
pub fn unwrap_response<T>(outcome: Result<T, RpcStatus>) -> (res: Result<T, ResError>)
    ensures
        match outcome {
            Ok(body) => res == Ok::<T, ResError>(body),
            Err(status) => res == Err::<T, ResError>(
                ResError::spec_from_status(status.code, status.message@, status.detail),
            ),
        },
{
    match outcome {
        Ok(body) => Ok(body),
        Err(status) => Err(ResError::from_status(status.code, status.message.as_str(), status.detail)),
    }
}

} // verus!
