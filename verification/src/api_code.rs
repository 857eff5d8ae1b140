//! Result codes of the feature store API and their HTTP and gRPC equivalents.
use vstd::prelude::*;

verus! {

/// A result code of the API.
#[derive(Debug, Clone, Copy, PartialEq, Eq, Structural)]
pub enum OfsApiCode {
    Success,
    NotFound,
    AlreadyExists,
    InvalidArgument,
    Unauthenticated,
    PermissionDenied,
    Unavailable,
    Internal,
    DeadlineExceeded,
    OutOfRange,
    FailedPrecondition,
    ResourceExhausted,
}

/// The HTTP status of a code.
pub open spec fn code_http_status(c: OfsApiCode) -> u16 {
    match c {
        OfsApiCode::Success => 200,
        OfsApiCode::NotFound => 404,
        OfsApiCode::AlreadyExists => 409,
        OfsApiCode::InvalidArgument => 400,
        OfsApiCode::Unauthenticated => 401,
        OfsApiCode::PermissionDenied => 403,
        OfsApiCode::Unavailable => 503,
        OfsApiCode::Internal => 500,
        OfsApiCode::DeadlineExceeded => 504,
        OfsApiCode::OutOfRange => 416,
        OfsApiCode::FailedPrecondition => 412,
        OfsApiCode::ResourceExhausted => 429,
    }
}

/// The gRPC status code of a code.
pub open spec fn code_grpc_code(c: OfsApiCode) -> i32 {
    match c {
        OfsApiCode::Success => 0,
        OfsApiCode::NotFound => 5,
        OfsApiCode::AlreadyExists => 6,
        OfsApiCode::InvalidArgument => 3,
        OfsApiCode::Unauthenticated => 16,
        OfsApiCode::PermissionDenied => 7,
        OfsApiCode::Unavailable => 14,
        OfsApiCode::Internal => 13,
        OfsApiCode::DeadlineExceeded => 4,
        OfsApiCode::OutOfRange => 11,
        OfsApiCode::FailedPrecondition => 9,
        OfsApiCode::ResourceExhausted => 8,
    }
}

/// The human-readable description of a code.
pub open spec fn code_description(c: OfsApiCode) -> Seq<char> {
    match c {
        OfsApiCode::Success => "success"@,
        OfsApiCode::NotFound => "resource not found"@,
        OfsApiCode::AlreadyExists => "resource already exists"@,
        OfsApiCode::InvalidArgument => "invalid request argument"@,
        OfsApiCode::Unauthenticated => "authentication required"@,
        OfsApiCode::PermissionDenied => "permission denied"@,
        OfsApiCode::Unavailable => "service temporarily unavailable"@,
        OfsApiCode::Internal => "internal server error"@,
        OfsApiCode::DeadlineExceeded => "deadline exceeded"@,
        OfsApiCode::OutOfRange => "request out of range"@,
        OfsApiCode::FailedPrecondition => "operation precondition failed"@,
        OfsApiCode::ResourceExhausted => "resource exhausted (rate limit)"@,
    }
}

/// The upper snake case wire name of a code (its serialized form).
pub open spec fn code_wire_name(c: OfsApiCode) -> Seq<char> {
    match c {
        OfsApiCode::Success => "OK"@,
        OfsApiCode::NotFound => "NOT_FOUND"@,
        OfsApiCode::AlreadyExists => "ALREADY_EXISTS"@,
        OfsApiCode::InvalidArgument => "INVALID_ARGUMENT"@,
        OfsApiCode::Unauthenticated => "UNAUTHENTICATED"@,
        OfsApiCode::PermissionDenied => "PERMISSION_DENIED"@,
        OfsApiCode::Unavailable => "UNAVAILABLE"@,
        OfsApiCode::Internal => "INTERNAL"@,
        OfsApiCode::DeadlineExceeded => "DEADLINE_EXCEEDED"@,
        OfsApiCode::OutOfRange => "OUT_OF_RANGE"@,
        OfsApiCode::FailedPrecondition => "FAILED_PRECONDITION"@,
        OfsApiCode::ResourceExhausted => "RESOURCE_EXHAUSTED"@,
    }
}

impl OfsApiCode {
    /// The HTTP status that this code is answered with.
    pub fn http_status(&self) -> (r: u16)
        ensures
            r == code_http_status(*self),
    {
        match self {
            OfsApiCode::Success => 200,
            OfsApiCode::NotFound => 404,
            OfsApiCode::AlreadyExists => 409,
            OfsApiCode::InvalidArgument => 400,
            OfsApiCode::Unauthenticated => 401,
            OfsApiCode::PermissionDenied => 403,
            OfsApiCode::Unavailable => 503,
            OfsApiCode::Internal => 500,
            OfsApiCode::DeadlineExceeded => 504,
            OfsApiCode::OutOfRange => 416,
            OfsApiCode::FailedPrecondition => 412,
            OfsApiCode::ResourceExhausted => 429,
        }
    }

    /// The gRPC status code that this code is answered with.
    pub fn grpc_code(&self) -> (r: i32)
        ensures
            r == code_grpc_code(*self),
    {
        match self {
            OfsApiCode::Success => 0,
            OfsApiCode::NotFound => 5,
            OfsApiCode::AlreadyExists => 6,
            OfsApiCode::InvalidArgument => 3,
            OfsApiCode::Unauthenticated => 16,
            OfsApiCode::PermissionDenied => 7,
            OfsApiCode::Unavailable => 14,
            OfsApiCode::Internal => 13,
            OfsApiCode::DeadlineExceeded => 4,
            OfsApiCode::OutOfRange => 11,
            OfsApiCode::FailedPrecondition => 9,
            OfsApiCode::ResourceExhausted => 8,
        }
    }

    /// A short description of this code.
    pub fn description(&self) -> (r: &'static str)
        ensures
            r@ == code_description(*self),
    {
        match self {
            OfsApiCode::Success => "success",
            OfsApiCode::NotFound => "resource not found",
            OfsApiCode::AlreadyExists => "resource already exists",
            OfsApiCode::InvalidArgument => "invalid request argument",
            OfsApiCode::Unauthenticated => "authentication required",
            OfsApiCode::PermissionDenied => "permission denied",
            OfsApiCode::Unavailable => "service temporarily unavailable",
            OfsApiCode::Internal => "internal server error",
            OfsApiCode::DeadlineExceeded => "deadline exceeded",
            OfsApiCode::OutOfRange => "request out of range",
            OfsApiCode::FailedPrecondition => "operation precondition failed",
            OfsApiCode::ResourceExhausted => "resource exhausted (rate limit)",
        }
    }

    /// The name of this code on the wire, such as `NOT_FOUND`.
    pub fn wire_name(&self) -> (r: &'static str)
        ensures
            r@ == code_wire_name(*self),
    {
        match self {
            OfsApiCode::Success => "OK",
            OfsApiCode::NotFound => "NOT_FOUND",
            OfsApiCode::AlreadyExists => "ALREADY_EXISTS",
            OfsApiCode::InvalidArgument => "INVALID_ARGUMENT",
            OfsApiCode::Unauthenticated => "UNAUTHENTICATED",
            OfsApiCode::PermissionDenied => "PERMISSION_DENIED",
            OfsApiCode::Unavailable => "UNAVAILABLE",
            OfsApiCode::Internal => "INTERNAL",
            OfsApiCode::DeadlineExceeded => "DEADLINE_EXCEEDED",
            OfsApiCode::OutOfRange => "OUT_OF_RANGE",
            OfsApiCode::FailedPrecondition => "FAILED_PRECONDITION",
            OfsApiCode::ResourceExhausted => "RESOURCE_EXHAUSTED",
        }
    }
}

/// Distinct codes are answered with distinct gRPC codes, and only `Success` is
/// answered with a 2xx HTTP status.
pub proof fn lemma_code_mappings(a: OfsApiCode, b: OfsApiCode)
    ensures
        a != b ==> code_grpc_code(a) != code_grpc_code(b),
        (200 <= code_http_status(a) < 300) <==> a == OfsApiCode::Success,
        400 <= code_http_status(a) < 600 <==> a != OfsApiCode::Success,
{
}

/// The codes answer with the HTTP statuses and gRPC status numbers that
/// the protocols fix for them: success 200 and 0, not found 404 and 5,
/// invalid argument 400 and 3, and so on for each code.
pub proof fn lemma_api_code_numbers()
    ensures
        code_http_status(OfsApiCode::Success) == 200,
        code_http_status(OfsApiCode::NotFound) == 404,
        code_http_status(OfsApiCode::AlreadyExists) == 409,
        code_http_status(OfsApiCode::InvalidArgument) == 400,
        code_http_status(OfsApiCode::Unauthenticated) == 401,
        code_http_status(OfsApiCode::PermissionDenied) == 403,
        code_http_status(OfsApiCode::Unavailable) == 503,
        code_http_status(OfsApiCode::Internal) == 500,
        code_http_status(OfsApiCode::DeadlineExceeded) == 504,
        code_http_status(OfsApiCode::OutOfRange) == 416,
        code_http_status(OfsApiCode::FailedPrecondition) == 412,
        code_http_status(OfsApiCode::ResourceExhausted) == 429,
        code_grpc_code(OfsApiCode::Success) == 0,
        code_grpc_code(OfsApiCode::NotFound) == 5,
        code_grpc_code(OfsApiCode::AlreadyExists) == 6,
        code_grpc_code(OfsApiCode::InvalidArgument) == 3,
        code_grpc_code(OfsApiCode::Unauthenticated) == 16,
        code_grpc_code(OfsApiCode::PermissionDenied) == 7,
        code_grpc_code(OfsApiCode::Unavailable) == 14,
        code_grpc_code(OfsApiCode::Internal) == 13,
        code_grpc_code(OfsApiCode::DeadlineExceeded) == 4,
        code_grpc_code(OfsApiCode::OutOfRange) == 11,
        code_grpc_code(OfsApiCode::FailedPrecondition) == 9,
        code_grpc_code(OfsApiCode::ResourceExhausted) == 8,
{
}

} // verus!
