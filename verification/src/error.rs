//! The closed set of failure kinds and their numeric encoding at the boundary.

use vstd::prelude::*;
use vstd::std_specs::convert::FromSpecImpl;

verus! {

/// A status code as it crosses the boundary.
pub type DracErrorCode = i32;

pub const DRAC_SUCCESS: DracErrorCode = 255;

pub const DRAC_ERROR_API_UNAVAILABLE: DracErrorCode = 0;

pub const DRAC_ERROR_CONFIGURATION_ERROR: DracErrorCode = 1;

pub const DRAC_ERROR_CORRUPTED_DATA: DracErrorCode = 2;

pub const DRAC_ERROR_INTERNAL_ERROR: DracErrorCode = 3;

pub const DRAC_ERROR_INVALID_ARGUMENT: DracErrorCode = 4;

pub const DRAC_ERROR_IO_ERROR: DracErrorCode = 5;

pub const DRAC_ERROR_NETWORK_ERROR: DracErrorCode = 6;

pub const DRAC_ERROR_NOT_FOUND: DracErrorCode = 7;

pub const DRAC_ERROR_NOT_SUPPORTED: DracErrorCode = 8;

pub const DRAC_ERROR_OTHER: DracErrorCode = 9;

pub const DRAC_ERROR_OUT_OF_MEMORY: DracErrorCode = 10;

pub const DRAC_ERROR_PARSE_ERROR: DracErrorCode = 11;

pub const DRAC_ERROR_PERMISSION_DENIED: DracErrorCode = 12;

pub const DRAC_ERROR_PERMISSION_REQUIRED: DracErrorCode = 13;

pub const DRAC_ERROR_PLATFORM_SPECIFIC: DracErrorCode = 14;

pub const DRAC_ERROR_RESOURCE_EXHAUSTED: DracErrorCode = 15;

pub const DRAC_ERROR_TIMEOUT: DracErrorCode = 16;

pub const DRAC_ERROR_UNAVAILABLE_FEATURE: DracErrorCode = 17;

/// Why an operation failed, or `Success`.
///
/// `Success` is a value of its own because the boundary encodes it as a
/// number outside the range of the failure kinds: zero is already taken by
/// `ApiUnavailable`.
#[derive(Debug, Clone, Copy, PartialEq, Eq, Structural)]
pub enum ErrorCode {
    ApiUnavailable,
    ConfigurationError,
    CorruptedData,
    InternalError,
    InvalidArgument,
    IoError,
    NetworkError,
    NotFound,
    NotSupported,
    Other,
    OutOfMemory,
    ParseError,
    PermissionDenied,
    PermissionRequired,
    PlatformSpecific,
    ResourceExhausted,
    Timeout,
    UnavailableFeature,
    Success,
}

impl ErrorCode {
    /// The kind that a status code stands for. A number that encodes no kind
    /// reads as `Other`.
    pub open spec fn of_code(code: int) -> ErrorCode {
        if code == 0 {
            ErrorCode::ApiUnavailable
        } else if code == 1 {
            ErrorCode::ConfigurationError
        } else if code == 2 {
            ErrorCode::CorruptedData
        } else if code == 3 {
            ErrorCode::InternalError
        } else if code == 4 {
            ErrorCode::InvalidArgument
        } else if code == 5 {
            ErrorCode::IoError
        } else if code == 6 {
            ErrorCode::NetworkError
        } else if code == 7 {
            ErrorCode::NotFound
        } else if code == 8 {
            ErrorCode::NotSupported
        } else if code == 9 {
            ErrorCode::Other
        } else if code == 10 {
            ErrorCode::OutOfMemory
        } else if code == 11 {
            ErrorCode::ParseError
        } else if code == 12 {
            ErrorCode::PermissionDenied
        } else if code == 13 {
            ErrorCode::PermissionRequired
        } else if code == 14 {
            ErrorCode::PlatformSpecific
        } else if code == 15 {
            ErrorCode::ResourceExhausted
        } else if code == 16 {
            ErrorCode::Timeout
        } else if code == 17 {
            ErrorCode::UnavailableFeature
        } else if code == 255 {
            ErrorCode::Success
        } else {
            ErrorCode::Other
        }
    }

    /// The status code that encodes a kind.
    pub open spec fn spec_code(self) -> int {
        match self {
            ErrorCode::ApiUnavailable => 0,
            ErrorCode::ConfigurationError => 1,
            ErrorCode::CorruptedData => 2,
            ErrorCode::InternalError => 3,
            ErrorCode::InvalidArgument => 4,
            ErrorCode::IoError => 5,
            ErrorCode::NetworkError => 6,
            ErrorCode::NotFound => 7,
            ErrorCode::NotSupported => 8,
            ErrorCode::Other => 9,
            ErrorCode::OutOfMemory => 10,
            ErrorCode::ParseError => 11,
            ErrorCode::PermissionDenied => 12,
            ErrorCode::PermissionRequired => 13,
            ErrorCode::PlatformSpecific => 14,
            ErrorCode::ResourceExhausted => 15,
            ErrorCode::Timeout => 16,
            ErrorCode::UnavailableFeature => 17,
            ErrorCode::Success => 255,
        }
    }

    /// Decodes a status code.
    pub fn from_code(code: DracErrorCode) -> (kind: ErrorCode)
        ensures
            kind == ErrorCode::of_code(code as int),
    {
        if code == DRAC_ERROR_API_UNAVAILABLE {
            ErrorCode::ApiUnavailable
        } else if code == DRAC_ERROR_CONFIGURATION_ERROR {
            ErrorCode::ConfigurationError
        } else if code == DRAC_ERROR_CORRUPTED_DATA {
            ErrorCode::CorruptedData
        } else if code == DRAC_ERROR_INTERNAL_ERROR {
            ErrorCode::InternalError
        } else if code == DRAC_ERROR_INVALID_ARGUMENT {
            ErrorCode::InvalidArgument
        } else if code == DRAC_ERROR_IO_ERROR {
            ErrorCode::IoError
        } else if code == DRAC_ERROR_NETWORK_ERROR {
            ErrorCode::NetworkError
        } else if code == DRAC_ERROR_NOT_FOUND {
            ErrorCode::NotFound
        } else if code == DRAC_ERROR_NOT_SUPPORTED {
            ErrorCode::NotSupported
        } else if code == DRAC_ERROR_OTHER {
            ErrorCode::Other
        } else if code == DRAC_ERROR_OUT_OF_MEMORY {
            ErrorCode::OutOfMemory
        } else if code == DRAC_ERROR_PARSE_ERROR {
            ErrorCode::ParseError
        } else if code == DRAC_ERROR_PERMISSION_DENIED {
            ErrorCode::PermissionDenied
        } else if code == DRAC_ERROR_PERMISSION_REQUIRED {
            ErrorCode::PermissionRequired
        } else if code == DRAC_ERROR_PLATFORM_SPECIFIC {
            ErrorCode::PlatformSpecific
        } else if code == DRAC_ERROR_RESOURCE_EXHAUSTED {
            ErrorCode::ResourceExhausted
        } else if code == DRAC_ERROR_TIMEOUT {
            ErrorCode::Timeout
        } else if code == DRAC_ERROR_UNAVAILABLE_FEATURE {
            ErrorCode::UnavailableFeature
        } else if code == DRAC_SUCCESS {
            ErrorCode::Success
        } else {
            ErrorCode::Other
        }
    }

    /// Encodes a kind as its status code.
    pub fn code(self) -> (code: DracErrorCode)
        ensures
            code == self.spec_code(),
    {
        match self {
            ErrorCode::ApiUnavailable => DRAC_ERROR_API_UNAVAILABLE,
            ErrorCode::ConfigurationError => DRAC_ERROR_CONFIGURATION_ERROR,
            ErrorCode::CorruptedData => DRAC_ERROR_CORRUPTED_DATA,
            ErrorCode::InternalError => DRAC_ERROR_INTERNAL_ERROR,
            ErrorCode::InvalidArgument => DRAC_ERROR_INVALID_ARGUMENT,
            ErrorCode::IoError => DRAC_ERROR_IO_ERROR,
            ErrorCode::NetworkError => DRAC_ERROR_NETWORK_ERROR,
            ErrorCode::NotFound => DRAC_ERROR_NOT_FOUND,
            ErrorCode::NotSupported => DRAC_ERROR_NOT_SUPPORTED,
            ErrorCode::Other => DRAC_ERROR_OTHER,
            ErrorCode::OutOfMemory => DRAC_ERROR_OUT_OF_MEMORY,
            ErrorCode::ParseError => DRAC_ERROR_PARSE_ERROR,
            ErrorCode::PermissionDenied => DRAC_ERROR_PERMISSION_DENIED,
            ErrorCode::PermissionRequired => DRAC_ERROR_PERMISSION_REQUIRED,
            ErrorCode::PlatformSpecific => DRAC_ERROR_PLATFORM_SPECIFIC,
            ErrorCode::ResourceExhausted => DRAC_ERROR_RESOURCE_EXHAUSTED,
            ErrorCode::Timeout => DRAC_ERROR_TIMEOUT,
            ErrorCode::UnavailableFeature => DRAC_ERROR_UNAVAILABLE_FEATURE,
            ErrorCode::Success => DRAC_SUCCESS,
        }
    }
}

impl From<DracErrorCode> for ErrorCode {
    fn from(code: DracErrorCode) -> (kind: ErrorCode) {
        ErrorCode::from_code(code)
    }
}

impl FromSpecImpl<DracErrorCode> for ErrorCode {
    open spec fn obeys_from_spec() -> bool {
        true
    }

    open spec fn from_spec(code: DracErrorCode) -> ErrorCode {
        ErrorCode::of_code(code as int)
    }
}

/// Every kind survives being encoded and decoded again.
pub proof fn lemma_code_round_trip(kind: ErrorCode)
    ensures
        ErrorCode::of_code(kind.spec_code()) == kind,
{
}

/// Success and failure never share a code: the failure kinds take 0 to 17,
/// success takes 255, and 255 is the only number that decodes to success.
pub proof fn lemma_success_is_disjoint(kind: ErrorCode, code: int)
    ensures
        kind != ErrorCode::Success <==> 0 <= kind.spec_code() <= 17,
        kind == ErrorCode::Success <==> kind.spec_code() == 255,
        ErrorCode::of_code(code) == ErrorCode::Success <==> code == 255,
{
}

} // verus!
