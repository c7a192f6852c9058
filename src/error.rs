//! The error model: native status codes and the composite error type.
use vstd::prelude::*;

verus! {

/// Error kinds that the native engine reports as small positive status codes.
#[derive(Clone, Copy, Debug, PartialEq, Eq, Structural, Hash)]
pub enum SoloudErrorKind {
    /// Some parameter is invalid.
    InvalidParemeter,
    /// File not found.
    FileNotFound,
    /// File found, but could not be loaded.
    FileLoadFailed,
    /// Shared library not found, or the wrong one.
    DllNotFound,
    /// Out of memory.
    OutOfMemory,
    /// Feature not implemented.
    NotImplemented,
    /// Other error.
    UnknownError,
}

/// The status code the native engine uses for each kind.
pub open spec fn kind_code(k: SoloudErrorKind) -> i32 {
    match k {
        SoloudErrorKind::InvalidParemeter => 1,
        SoloudErrorKind::FileNotFound => 2,
        SoloudErrorKind::FileLoadFailed => 3,
        SoloudErrorKind::DllNotFound => 4,
        SoloudErrorKind::OutOfMemory => 5,
        SoloudErrorKind::NotImplemented => 6,
        SoloudErrorKind::UnknownError => 7,
    }
}

/// Whether `code` is one of the failure codes of the closed table.
pub open spec fn is_kind_code(code: int) -> bool {
    1 <= code <= 7
}

/// The kind a non-zero status code stands for; a code outside the table is
/// an unclassified engine failure.
pub open spec fn status_kind(code: i32) -> SoloudErrorKind {
    if code == 1 {
        SoloudErrorKind::InvalidParemeter
    } else if code == 2 {
        SoloudErrorKind::FileNotFound
    } else if code == 3 {
        SoloudErrorKind::FileLoadFailed
    } else if code == 4 {
        SoloudErrorKind::DllNotFound
    } else if code == 5 {
        SoloudErrorKind::OutOfMemory
    } else if code == 6 {
        SoloudErrorKind::NotImplemented
    } else {
        SoloudErrorKind::UnknownError
    }
}

impl SoloudErrorKind {
    /// The kind of a failure code of the table; the caller has already
    /// checked that the code is not the success code and is in range.
    pub fn from_i32(val: i32) -> (r: SoloudErrorKind)
        requires
            is_kind_code(val as int),
        ensures
            kind_code(r) == val,
            r == status_kind(val),
    {
        match val {
            1 => SoloudErrorKind::InvalidParemeter,
            2 => SoloudErrorKind::FileNotFound,
            3 => SoloudErrorKind::FileLoadFailed,
            4 => SoloudErrorKind::DllNotFound,
            5 => SoloudErrorKind::OutOfMemory,
            6 => SoloudErrorKind::NotImplemented,
            _ => SoloudErrorKind::UnknownError,
        }
    }

    /// The kind of any status code, or `None` where the code is not a
    /// failure code of the table (the success code included).
    pub fn from_code(code: i32) -> (r: Option<SoloudErrorKind>)
        ensures
            r is Some <==> is_kind_code(code as int),
            r matches Some(k) ==> kind_code(k) == code && k == status_kind(code),
    {
        if 1 <= code && code <= 7 {
            Some(SoloudErrorKind::from_i32(code))
        } else {
            None
        }
    }

    /// The status code of this kind.
    pub fn code(&self) -> (r: i32)
        ensures
            r == kind_code(*self),
    {
        match self {
            SoloudErrorKind::InvalidParemeter => 1,
            SoloudErrorKind::FileNotFound => 2,
            SoloudErrorKind::FileLoadFailed => 3,
            SoloudErrorKind::DllNotFound => 4,
            SoloudErrorKind::OutOfMemory => 5,
            SoloudErrorKind::NotImplemented => 6,
            SoloudErrorKind::UnknownError => 7,
        }
    }
}

/// Each failure code of the table stands for the kind whose code it is, each
/// kind's code is in the table, and the success code stands for no kind.
pub proof fn lemma_kind_code_round_trip(code: i32, k: SoloudErrorKind)
    ensures
        is_kind_code(code as int) ==> kind_code(status_kind(code)) == code,
        status_kind(kind_code(k)) == k,
        is_kind_code(kind_code(k) as int),
        !is_kind_code(0),
{
}

/// std's `io::Error`, carried unopened in `SoloudError::IoError`.
#[verifier::external_type_specification]
#[verifier::external_body]
pub struct ExIoError(std::io::Error);

/// Every failure an operation of this library reports.
#[derive(Debug)]
pub enum SoloudError {
    /// The platform's I/O layer failed.
    IoError(std::io::Error),
    /// A path or string holds a NUL byte, at this byte position, which the
    /// native boundary cannot carry.
    NullError(usize),
    /// The native engine returned a failure code.
    Internal(SoloudErrorKind),
    /// A failure not otherwise classified.
    Unknown(String),
}

impl SoloudError {
    /// The kind of an engine failure, if this is one.
    pub fn kind(&self) -> (r: Option<SoloudErrorKind>)
        ensures
            r == (match self {
                SoloudError::Internal(k) => Some(*k),
                _ => None,
            }),
    {
        match self {
            SoloudError::Internal(k) => Some(*k),
            _ => None,
        }
    }
}

impl std::convert::From<std::io::Error> for SoloudError {
    fn from(err: std::io::Error) -> (r: SoloudError) {
        SoloudError::IoError(err)
    }
}

impl vstd::std_specs::convert::FromSpecImpl<std::io::Error> for SoloudError {
    open spec fn obeys_from_spec() -> bool {
        true
    }

    open spec fn from_spec(err: std::io::Error) -> SoloudError {
        SoloudError::IoError(err)
    }
}

/// The outcome a native status code stands for: success on zero, otherwise
/// an engine failure of the matching kind.
pub open spec fn status_outcome(ret: i32) -> Result<(), SoloudError> {
    if ret == 0 {
        Ok(())
    } else {
        Err(SoloudError::Internal(status_kind(ret)))
    }
}

/// Maps a native status code to the result of the operation that returned it.
pub fn check_status(ret: i32) -> (r: Result<(), SoloudError>)
    ensures
        r == status_outcome(ret),
        r is Ok <==> ret == 0,
{
    if ret == 0 {
        Ok(())
    } else {
        match SoloudErrorKind::from_code(ret) {
            Some(k) => Err(SoloudError::Internal(k)),
            None => Err(SoloudError::Internal(SoloudErrorKind::UnknownError)),
        }
    }
}

} // verus!
