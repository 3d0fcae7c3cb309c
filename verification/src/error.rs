//! Failures: what the host reports, what the Delta API is told, and the map
//! between the two.

use vstd::prelude::*;

verus! {

/// A failure as the host reports it: an HTTP-like status code and a message.
#[derive(Clone, Debug, PartialEq, Eq)]
pub struct ErrorModel {
    pub code: u16,
    pub message: String,
}

/// A failure as the Delta API is told of it.
#[derive(Clone, Debug, PartialEq, Eq)]
pub enum DeltaBackendError {
    /// The table or namespace does not exist.
    NotFound(String),
    /// Something other than a table does not exist.
    NotFoundGeneric(String),
    /// The caller did not say who they are.
    Unauthenticated(String),
    /// The caller may not do this.
    PermissionDenied(String),
    /// The request itself is malformed.
    InvalidArgument(String),
    /// What was to be created is already there.
    AlreadyExists(String),
    /// The caller has used up an allowance.
    ResourceExhausted(String),
    /// The operation is not served.
    NotImplemented(&'static str),
    /// Anything else.
    Internal(String),
}

pub type BackendResult<T> = Result<T, DeltaBackendError>;

/// The kind of a [`DeltaBackendError`], without its message.
pub enum ErrorKind {
    NotFound,
    NotFoundGeneric,
    Unauthenticated,
    PermissionDenied,
    InvalidArgument,
    AlreadyExists,
    ResourceExhausted,
    NotImplemented,
    Internal,
}

/// What a [`DeltaBackendError`] says: its kind and the characters of its message.
pub struct Failure {
    pub kind: ErrorKind,
    pub message: Seq<char>,
}

impl View for DeltaBackendError {
    type V = Failure;

    open spec fn view(&self) -> Failure {
        match *self {
            DeltaBackendError::NotFound(m) => Failure { kind: ErrorKind::NotFound, message: m@ },
            DeltaBackendError::NotFoundGeneric(m) => Failure {
                kind: ErrorKind::NotFoundGeneric,
                message: m@,
            },
            DeltaBackendError::Unauthenticated(m) => Failure {
                kind: ErrorKind::Unauthenticated,
                message: m@,
            },
            DeltaBackendError::PermissionDenied(m) => Failure {
                kind: ErrorKind::PermissionDenied,
                message: m@,
            },
            DeltaBackendError::InvalidArgument(m) => Failure {
                kind: ErrorKind::InvalidArgument,
                message: m@,
            },
            DeltaBackendError::AlreadyExists(m) => Failure {
                kind: ErrorKind::AlreadyExists,
                message: m@,
            },
            DeltaBackendError::ResourceExhausted(m) => Failure {
                kind: ErrorKind::ResourceExhausted,
                message: m@,
            },
            DeltaBackendError::NotImplemented(m) => Failure {
                kind: ErrorKind::NotImplemented,
                message: m@,
            },
            DeltaBackendError::Internal(m) => Failure { kind: ErrorKind::Internal, message: m@ },
        }
    }
}

/// A result with its error taken by what it says.
pub open spec fn seen<T>(result: BackendResult<T>) -> Result<T, Failure> {
    match result {
        Ok(value) => Ok(value),
        Err(error) => Err(error@),
    }
}

/// A result with both its value and its error taken by what they say.
pub open spec fn viewed<T: View>(result: BackendResult<T>) -> Result<T::V, Failure> {
    match result {
        Ok(value) => Ok(value@),
        Err(error) => Err(error@),
    }
}

/// The kind of failure that a host status code stands for.
pub open spec fn kind_of_code(code: u16) -> ErrorKind {
    if code == 404 {
        ErrorKind::NotFound
    } else if code == 401 {
        ErrorKind::Unauthenticated
    } else if code == 403 {
        ErrorKind::PermissionDenied
    } else if code == 400 {
        ErrorKind::InvalidArgument
    } else if code == 409 {
        ErrorKind::AlreadyExists
    } else if code == 429 {
        ErrorKind::ResourceExhausted
    } else {
        ErrorKind::Internal
    }
}

/// What the Delta API is told of a host failure: the kind its code stands for,
/// and its message unchanged.
pub open spec fn failure_of(error: ErrorModel) -> Failure {
    Failure { kind: kind_of_code(error.code), message: error.message@ }
}

/// A host reply with its error taken by what the Delta API is told of it.
pub open spec fn told<T>(reply: Result<T, ErrorModel>) -> Result<T, Failure> {
    match reply {
        Ok(value) => Ok(value),
        Err(error) => Err(failure_of(error)),
    }
}

/// Maps a host failure onto the failure that the Delta API is told of.
pub fn to_backend_err(error: ErrorModel) -> (told_error: DeltaBackendError)
    ensures
        told_error@ == failure_of(error),
        match told_error {
            DeltaBackendError::NotFound(m) => error.code == 404 && m@ == error.message@,
            DeltaBackendError::Unauthenticated(m) => error.code == 401 && m@ == error.message@,
            DeltaBackendError::PermissionDenied(m) => error.code == 403 && m@ == error.message@,
            DeltaBackendError::InvalidArgument(m) => error.code == 400 && m@ == error.message@,
            DeltaBackendError::AlreadyExists(m) => error.code == 409 && m@ == error.message@,
            DeltaBackendError::ResourceExhausted(m) => error.code == 429 && m@ == error.message@,
            DeltaBackendError::Internal(m) => {
                &&& error.code != 400 && error.code != 401 && error.code != 403
                &&& error.code != 404 && error.code != 409 && error.code != 429
                &&& m@ == error.message@
            },
            DeltaBackendError::NotFoundGeneric(_) => false,
            DeltaBackendError::NotImplemented(_) => false,
        },
{
    match error.code {
        404 => DeltaBackendError::NotFound(error.message),
        401 => DeltaBackendError::Unauthenticated(error.message),
        403 => DeltaBackendError::PermissionDenied(error.message),
        400 => DeltaBackendError::InvalidArgument(error.message),
        409 => DeltaBackendError::AlreadyExists(error.message),
        429 => DeltaBackendError::ResourceExhausted(error.message),
        _ => DeltaBackendError::Internal(error.message),
    }
}

/// Maps the failure of a host reply, and keeps its value.
pub fn tell<T>(reply: Result<T, ErrorModel>) -> (result: BackendResult<T>)
    ensures
        seen(result) == told(reply),
        reply matches Ok(value) ==> result == Ok::<T, DeltaBackendError>(value),
        reply matches Err(error) ==> (result matches Err(told_error) && told_error@.message
            == error.message@),
{
    match reply {
        Ok(value) => Ok(value),
        Err(error) => Err(to_backend_err(error)),
    }
}

/// Two status codes are told as the same kind only where they are one code, or
/// where both are unrecognised: "already exists" never surfaces as "not found".
pub proof fn codes_are_told_apart(a: u16, b: u16)
    ensures
        kind_of_code(a) == kind_of_code(b) <==> a == b || (kind_of_code(a) is Internal
            && kind_of_code(b) is Internal),
{
}

/// A code is told as an internal failure exactly where it is none of the six
/// that have a kind of their own.
pub proof fn unrecognised_codes_are_internal(code: u16)
    ensures
        kind_of_code(code) is Internal <==> !set![400u16, 401u16, 403u16, 404u16, 409u16, 429u16].contains(
            code,
        ),
{
}

/// Every status code is told as the kind that HTTP gives it: one code for each of
/// six kinds, and no code for "something else is not there" or "not implemented",
/// which only this API says of itself.
pub proof fn codes_have_the_kinds_of_http(code: u16)
    ensures
        kind_of_code(code) is InvalidArgument <==> code == 400,
        kind_of_code(code) is Unauthenticated <==> code == 401,
        kind_of_code(code) is PermissionDenied <==> code == 403,
        kind_of_code(code) is NotFound <==> code == 404,
        kind_of_code(code) is AlreadyExists <==> code == 409,
        kind_of_code(code) is ResourceExhausted <==> code == 429,
        !(kind_of_code(code) is NotFoundGeneric),
        !(kind_of_code(code) is NotImplemented),
{
}

/// What an error says is its variant and its whole message, whatever the message
/// is.
pub proof fn errors_say_their_variant_and_message(error: DeltaBackendError)
    ensures
        error@.kind is NotFound <==> error is NotFound,
        error@.kind is NotFoundGeneric <==> error is NotFoundGeneric,
        error@.kind is Unauthenticated <==> error is Unauthenticated,
        error@.kind is PermissionDenied <==> error is PermissionDenied,
        error@.kind is InvalidArgument <==> error is InvalidArgument,
        error@.kind is AlreadyExists <==> error is AlreadyExists,
        error@.kind is ResourceExhausted <==> error is ResourceExhausted,
        error@.kind is NotImplemented <==> error is NotImplemented,
        error@.kind is Internal <==> error is Internal,
        error matches DeltaBackendError::NotFound(m) ==> error@.message == m@,
        error matches DeltaBackendError::NotFoundGeneric(m) ==> error@.message == m@,
        error matches DeltaBackendError::Unauthenticated(m) ==> error@.message == m@,
        error matches DeltaBackendError::PermissionDenied(m) ==> error@.message == m@,
        error matches DeltaBackendError::InvalidArgument(m) ==> error@.message == m@,
        error matches DeltaBackendError::AlreadyExists(m) ==> error@.message == m@,
        error matches DeltaBackendError::ResourceExhausted(m) ==> error@.message == m@,
        error matches DeltaBackendError::NotImplemented(m) ==> error@.message == m@,
        error matches DeltaBackendError::Internal(m) ==> error@.message == m@,
{
}

/// A result is seen as the success or the failure that it is, with its own value
/// or its own error.
pub proof fn results_are_seen_as_they_are<T: View>(result: BackendResult<T>)
    ensures
        seen(result) is Ok <==> result is Ok,
        viewed(result) is Ok <==> result is Ok,
        result matches Ok(value) ==> seen(result)->Ok_0 == value && viewed(result)->Ok_0 == value@,
        result matches Err(error) ==> seen(result)->Err_0 == error@ && viewed(result)->Err_0
            == error@,
{
}

/// A host reply that succeeded is passed on with its value, and no other is passed
/// on. A failure keeps its message, and whether it says "not found", "denied" and
/// so on is decided by its code alone.
pub proof fn replies_are_told_by_code_and_message<T>(reply: Result<T, ErrorModel>)
    ensures
        told(reply) is Ok <==> reply is Ok,
        reply matches Ok(value) ==> told(reply)->Ok_0 == value,
        reply matches Err(error) ==> {
            let failure = told(reply)->Err_0;
            &&& failure == failure_of(error)
            &&& failure.message == error.message@
            &&& failure.kind is InvalidArgument <==> error.code == 400
            &&& failure.kind is Unauthenticated <==> error.code == 401
            &&& failure.kind is PermissionDenied <==> error.code == 403
            &&& failure.kind is NotFound <==> error.code == 404
            &&& failure.kind is AlreadyExists <==> error.code == 409
            &&& failure.kind is ResourceExhausted <==> error.code == 429
            &&& !(failure.kind is NotFoundGeneric)
            &&& !(failure.kind is NotImplemented)
        },
{
}

} // verus!
