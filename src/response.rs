use vstd::prelude::*;

use crate::error::{DataverseError, FALLBACK_MESSAGE, NO_IDENTIFIER_MESSAGE};
use crate::id::{embedded_uuid_value, extract_identifier, has_uuid, EntityId};
use crate::page::opt_view;

verus! {

/// Statuses in the 4xx and 5xx ranges are failures; all others succeed.
pub open spec fn is_failure_status(status: u16) -> bool {
    400 <= status && status < 600
}

/// Text of a server failure: the body when it could be read, else the
/// fallback message.
pub open spec fn server_message(body: Option<Seq<char>>) -> Seq<char> {
    match body {
        Some(b) => b,
        None => FALLBACK_MESSAGE@,
    }
}

/// The server failure a response amounts to, if any.
pub open spec fn failure_of(status: u16, body: Option<Seq<char>>) -> Option<Seq<char>> {
    if is_failure_status(status) {
        Some(server_message(body))
    } else {
        None
    }
}

pub open spec fn is_server_error_with<T>(r: Result<T, DataverseError>, m: Seq<char>) -> bool {
    r matches Err(DataverseError::Server { message }) && message@ == m
}

pub fn is_failure(status: u16) -> (r: bool)
    ensures
        r == is_failure_status(status),
{
    400 <= status && status < 600
}

/// The failure for a 4xx/5xx response whose body text is `body` (`None` when
/// it could not be read).
pub fn server_error(body: Option<String>) -> (e: DataverseError)
    ensures
        e matches DataverseError::Server { message } && message@ == server_message(opt_view(body)),
{
    match body {
        Some(b) => DataverseError::Server { message: b },
        None => DataverseError::Server { message: String::from_str(FALLBACK_MESSAGE) },
    }
}

/// Outcome of a call whose success carries nothing. `body` is the response
/// text; it is read only on failure.
pub fn interpret_empty(status: u16, body: Option<String>) -> (r: Result<(), DataverseError>)
    ensures
        match failure_of(status, opt_view(body)) {
            Some(m) => is_server_error_with(r, m),
            None => r is Ok,
        },
{
    if is_failure(status) {
        Err(server_error(body))
    } else {
        Ok(())
    }
}

/// Outcome of a create: on success, the identifier embedded in the
/// confirmation header.
pub fn interpret_created(status: u16, body: Option<String>, header: Option<&str>) -> (r: Result<
    EntityId,
    DataverseError,
>)
    ensures
        match failure_of(status, opt_view(body)) {
            Some(m) => is_server_error_with(r, m),
            None => match header {
                Some(h) if has_uuid(h@) => r matches Ok(id) && id.value as nat
                    == embedded_uuid_value(h@),
                _ => r matches Err(DataverseError::ProtocolViolation { message }) && message@
                    == NO_IDENTIFIER_MESSAGE@,
            },
        },
{
    if is_failure(status) {
        Err(server_error(body))
    } else {
        extract_identifier(header)
    }
}

/// Outcome of a read: on success, whatever decoding the payload gave.
pub fn interpret_payload<T>(status: u16, body: Option<String>, payload: Result<T, DataverseError>) -> (r: Result<T, DataverseError>)
    ensures
        match failure_of(status, opt_view(body)) {
            Some(m) => is_server_error_with(r, m),
            None => r == payload,
        },
{
    if is_failure(status) {
        Err(server_error(body))
    } else {
        payload
    }
}

/// Every 4xx or 5xx response, whatever the operation, is a server failure
/// carrying the body text, or the fallback message when the body is unreadable.
pub proof fn lemma_failure_status_is_server_error(status: u16, body: Option<Seq<char>>)
    requires
        400 <= status < 600,
    ensures
        failure_of(status, body) == Some(
            match body {
                Some(b) => b,
                None => FALLBACK_MESSAGE@,
            },
        ),
{
}

} // verus!
