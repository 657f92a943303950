use vstd::prelude::*;
use vstd::string::StringExecFns;

verus! {

/// Why the control plane did not let a stream through.
#[derive(Debug, Clone, Copy, PartialEq, Eq, Structural)]
pub enum AuthError {
    /// The authorization request got a non-success answer.
    Rejected,
    /// The stream was authorized but its destination list could not be had.
    ForwardingUnavailable,
}

pub const AUTH_PATH: &'static str = "/api/auth/stream";

pub const FORWARDING_PATH: &'static str = "/api/streams/forwarding/";

pub const STREAM_END_PATH: &'static str = "/api/auth/stream-end";

/// An HTTP status code in the success class.
pub open spec fn is_success(code: u16) -> bool {
    200 <= code <= 299
}

/// Whether an HTTP status code is in the success class.
pub fn is_success_status(code: u16) -> (r: bool)
    ensures
        r == is_success(code),
{
    200 <= code && code <= 299
}

/// The verdict of the control plane on a stream, from the status of the
/// authorization answer and, where that one succeeded, the status of the
/// forwarding answer (`None` while that request has not been made).
pub open spec fn spec_authorization_outcome(auth_status: u16, forwarding_status: Option<u16>) -> Option<
    Result<(), AuthError>,
> {
    if !is_success(auth_status) {
        Some(Err(AuthError::Rejected))
    } else {
        match forwarding_status {
            None => None,
            Some(f) => if is_success(f) {
                Some(Ok(()))
            } else {
                Some(Err(AuthError::ForwardingUnavailable))
            },
        }
    }
}

/// Decides the authorization of a stream. `None` means the verdict is still
/// open: the authorization succeeded and the destination list must be fetched.
pub fn authorization_outcome(auth_status: u16, forwarding_status: Option<u16>) -> (r: Option<
    Result<(), AuthError>,
>)
    ensures
        r == spec_authorization_outcome(auth_status, forwarding_status),
{
    if !is_success_status(auth_status) {
        Some(Err(AuthError::Rejected))
    } else {
        match forwarding_status {
            None => None,
            Some(f) => if is_success_status(f) {
                Some(Ok(()))
            } else {
                Some(Err(AuthError::ForwardingUnavailable))
            },
        }
    }
}

/// Where a stream is authorized: the base URL followed by the auth path.
pub fn auth_url(base: &String) -> (r: String)
    ensures
        r@ == base@ + AUTH_PATH@,
{
    base.clone().concat(AUTH_PATH)
}

/// Where a stream's destination list is fetched.
pub fn forwarding_url(base: &String, stream_key: &str) -> (r: String)
    ensures
        r@ == base@ + FORWARDING_PATH@ + stream_key@,
{
    base.clone().concat(FORWARDING_PATH).concat(stream_key)
}

/// Where the end of a stream is reported.
pub fn stream_end_url(base: &String) -> (r: String)
    ensures
        r@ == base@ + STREAM_END_PATH@,
{
    base.clone().concat(STREAM_END_PATH)
}

} // verus!
