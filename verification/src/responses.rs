//! The uniform response envelope every endpoint answers with.

use vstd::prelude::*;

verus! {

/// Generic response wrapper: numeric HTTP status, optional payload,
/// human-readable message, optional error tag and detail, timestamp.
#[derive(Debug)]
pub struct ApiResponse<T> {
    /// HTTP status code.
    pub status: u16,
    /// Response payload, absent on errors.
    pub data: Option<T>,
    /// Human-readable message.
    pub message: String,
    /// Error tag, present only on error responses.
    pub error: Option<String>,
    /// Additional detail, present only when an error carries one.
    pub details: Option<String>,
    /// RFC 3339 timestamp of the moment the envelope was built.
    pub timestamp: String,
}

/// Shape of an RFC 3339 rendering of a UTC instant: a date ending in
/// `-MM-DD`, a `T`, a time `HH:MM:SS` (possibly with a fractional
/// part), and the offset `+00:00`.
pub open spec fn spec_rfc3339_utc_shaped(s: Seq<char>) -> bool {
    exists|t: int|
        10 <= t && t + 15 <= s.len() && #[trigger] s[t] == 'T' && s[t - 3] == '-' && s[t - 6] == '-'
            && s[t + 3] == ':' && s[t + 6] == ':' && s.subrange(
            s.len() as int - 6,
            s.len() as int,
        ) == "+00:00"@
}

/// Relies on chrono's `Utc::now` and `to_rfc3339`: the current
/// wall-clock instant rendered as an RFC 3339 timestamp — a date ending
/// in `-MM-DD`, a `T`, a time `HH:MM:SS` with an optional fractional
/// part, and the UTC offset `+00:00`.  Nothing more is promised of the
/// value: the clock is outside the program.
#[verifier::external_body]
fn now_rfc3339() -> (r: String)
    ensures
        spec_rfc3339_utc_shaped(r@),
{
    chrono::Utc::now().to_rfc3339()
}

impl<T> ApiResponse<T> {
    /// A successful envelope with status 200.
    pub fn success(data: T, message: &str) -> (r: Self)
        ensures
            r.status == 200,
            r.data == Some(data),
            r.message@ == message@,
            r.error is None,
            r.details is None,
            spec_rfc3339_utc_shaped(r.timestamp@),
    {
        ApiResponse {
            status: 200,
            data: Some(data),
            message: message.to_owned(),
            error: None,
            details: None,
            timestamp: now_rfc3339(),
        }
    }

    /// A successful envelope with a caller-chosen status.
    pub fn success_with_status(status: u16, data: T, message: &str) -> (r: Self)
        ensures
            r.status == status,
            r.data == Some(data),
            r.message@ == message@,
            r.error is None,
            r.details is None,
            spec_rfc3339_utc_shaped(r.timestamp@),
    {
        ApiResponse {
            status,
            data: Some(data),
            message: message.to_owned(),
            error: None,
            details: None,
            timestamp: now_rfc3339(),
        }
    }
}

impl ApiResponse<()> {
    /// An error envelope: no payload, an error tag, an optional detail.
    pub fn error(status: u16, error: &str, message: String, details: Option<String>) -> (r: Self)
        ensures
            r.status == status,
            r.data is None,
            r.message == message,
            r.error matches Some(e) && e@ == error@,
            r.details == details,
            spec_rfc3339_utc_shaped(r.timestamp@),
    {
        ApiResponse {
            status,
            data: None,
            message,
            error: Some(error.to_owned()),
            details,
            timestamp: now_rfc3339(),
        }
    }
}

} // verus!
