//! The structured error model.
//!
//! Every platform status is translated at the point of failure into one
//! `Error` value. The legacy engine's batch call reports codes from a fixed
//! table (see the `shell` module); the modern engine's calls report
//! `HRESULT` statuses, which either carry a Win32 error code in their low
//! half or are kept raw together with the step that produced them.

use vstd::prelude::*;
use crate::shell::ErrorCode;
use crate::shell::spec_error_kind;
use crate::shell::spec_description;

verus! {

/// The category of a structured error, mirroring the host's I/O error kinds
/// that the deletion engines can produce.
#[derive(Clone, Copy, Debug, PartialEq, Eq, Structural)]
pub enum ErrorKind {
    NotFound,
    PermissionDenied,
    AlreadyExists,
    InvalidInput,
    InvalidData,
    Interrupted,
    Other,
}

/// The platform call a modern-engine failure came from; kept with the raw
/// status so the caller can name the failing step.
#[derive(Clone, Copy, Debug, PartialEq, Eq, Structural)]
pub enum ModernStep {
    /// Initialize the apartment-style concurrency model.
    Initialize,
    /// Create the binding context that restricts parsing to the filesystem.
    CreateBindCtx,
    /// Register the folder-preference parameter on the binding context.
    RegisterParam,
    /// Resolve the path string into an item handle.
    CreateItem,
    /// Query the item's folder and filesystem attributes.
    QueryAttributes,
    /// Instantiate the file-operation object.
    CreateFileOperation,
    /// Suppress interactive UI on the file-operation object.
    SetFlags,
    /// Register the item for deletion.
    QueueDelete,
    /// Execute the queued operation.
    Perform,
    /// Ask whether any sub-operation was aborted.
    QueryAborted,
}

/// A structured deletion error.
#[allow(inconsistent_fields)]
#[derive(Clone, Copy, Debug, PartialEq, Eq, Structural)]
pub enum Error {
    /// A raw platform error code, handed back for the host to describe.
    Os { code: i32 },
    /// A code from the legacy batch mechanism's fixed table.
    Shell { code: ErrorCode },
    /// The target exists but is neither a directory nor a directory symlink.
    NotDirectory,
    /// The platform reported that the operation did not run to completion,
    /// with no other code.
    Aborted,
    /// A modern-engine step failed with a status that carries no Win32 code.
    Unstructured { step: ModernStep, hr: i32 },
    /// A modern-engine step reported success but produced no object.
    NullObject { step: ModernStep },
}

/// The category of each error. A raw platform code has none here: assigning
/// it one is the host's affair.
pub open spec fn spec_kind(e: Error) -> Option<ErrorKind> {
    match e {
        Error::Os { .. } => None,
        Error::Shell { code } => Some(spec_error_kind(code)),
        Error::NotDirectory => Some(ErrorKind::InvalidData),
        Error::Aborted => Some(ErrorKind::Interrupted),
        Error::Unstructured { .. } => Some(ErrorKind::Other),
        Error::NullObject { .. } => Some(ErrorKind::Other),
    }
}

impl Error {
    /// Returns this error's category, where one is fixed by the library
    /// rather than by the host's raw-code tables.
    pub fn kind(&self) -> (k: Option<ErrorKind>)
        ensures
            k == spec_kind(*self),
    {
        match self {
            Error::Os { .. } => None,
            Error::Shell { code } => Some(code.error_kind()),
            Error::NotDirectory => Some(ErrorKind::InvalidData),
            Error::Aborted => Some(ErrorKind::Interrupted),
            Error::Unstructured { .. } => Some(ErrorKind::Other),
            Error::NullObject { .. } => Some(ErrorKind::Other),
        }
    }

    /// Returns the fixed description of this error, where the library owns
    /// one. Raw platform codes and unstructured statuses are described by
    /// the host, which formats the step name and status value itself.
    pub fn message(&self) -> (m: Option<&'static str>)
        ensures
            *self matches Error::Shell { code } ==> (m matches Some(s) && s@ == spec_description(
                code,
            )),
            self is NotDirectory ==> (m matches Some(s) && s@
                == "Target is not a directory or directory symlink."@),
            self is Aborted ==> (m matches Some(s) && s@
                == "Operation aborted before completion."@),
            self is Os || self is Unstructured || self is NullObject ==> m is None,
    {
        match self {
            Error::Os { .. } => None,
            Error::Shell { code } => Some(code.description()),
            Error::NotDirectory => Some("Target is not a directory or directory symlink."),
            Error::Aborted => Some("Operation aborted before completion."),
            Error::Unstructured { .. } => None,
            Error::NullObject { .. } => None,
        }
    }
}

/// Whether a failing `HRESULT` carries a Win32 error code in its low half.
pub open spec fn is_win32_hresult(hr: i32) -> bool {
    (hr as u32) & 0xffff_0000u32 == 0x8007_0000u32
}

/// The Win32 error code held in the low half of an `HRESULT`.
pub open spec fn win32_code_of(hr: i32) -> i32 {
    hr & 0xffff
}

/// The error a failing modern-engine status translates to: the embedded
/// Win32 code when the status carries one, the raw status and its step
/// otherwise.
pub open spec fn spec_hresult_error(hr: i32, step: ModernStep) -> Error {
    if is_win32_hresult(hr) {
        Error::Os { code: win32_code_of(hr) }
    } else {
        Error::Unstructured { step, hr }
    }
}

/// Checks a modern-engine status: a non-negative `HRESULT` passes through,
/// a negative one is translated at once into a structured error.
pub fn hresult_to_result(result: i32, step: ModernStep) -> (r: Result<i32, Error>)
    ensures
        result >= 0 ==> r == Ok::<i32, Error>(result),
        result < 0 ==> r == Err::<i32, Error>(spec_hresult_error(result, step)),
{
    if result >= 0 {
        Ok(result)
    } else {
        if (result as u32) & 0xffff_0000u32 == 0x8007_0000u32 {
            Err(Error::Os { code: result & 0xffff })
        } else {
            Err(Error::Unstructured { step, hr: result })
        }
    }
}

} // verus!
