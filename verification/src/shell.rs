//! The legacy deletion engine's decisions.
//!
//! The legacy mechanism is the platform's batch file-operation call. Before
//! the call, the target's attributes are checked: unreadable attributes mean
//! the target is missing, an absent directory bit means it is not a
//! directory (a directory symlink passes, because the bit reflects the
//! link's target type). After the call, a non-zero return is matched against
//! the mechanism's own code table, which takes precedence over generic
//! platform codes; a zero return is still re-checked for the aborted flag.

use vstd::prelude::*;
use crate::error::Error;
use crate::error::ErrorKind;
use crate::path::strip_extended;

verus! {

/// The legacy batch mechanism's own error codes, distinct from generic
/// platform codes and taking precedence over them.
#[allow(non_camel_case_types)]
#[derive(Clone, Copy, Debug, Eq, Hash, Ord, PartialEq, PartialOrd, Structural)]
pub enum ErrorCode {
    DE_SAMEFILE,
    DE_MANYSRC1DEST,
    DE_DIFFDIR,
    DE_ROOTDIR,
    DE_OPCANCELLED,
    DE_DESTSUBTREE,
    DE_ACCESSDENIEDSRC,
    DE_PATHTOODEEP,
    DE_MANYDEST,
    DE_INVALIDFILES,
    DE_DESTSAMETREE,
    DE_FLDDESTISFILE,
    DE_FILEDESTISFLD,
    DE_FILENAMETOOLONG,
    DE_DEST_IS_CDROM,
    DE_DEST_IS_DVD,
    DE_DEST_IS_CDRECORD,
    DE_FILE_TOO_LARGE,
    DE_SRC_IS_CDROM,
    DE_SRC_IS_DVD,
    DE_SRC_IS_CDRECORD,
    DE_ERROR_MAX,
    UNKNOWN,
    ERRORONDEST,
    DE_ROOTDIR_ERRORONDEST,
}

/// The numeric value of each code in the legacy mechanism's table.
pub open spec fn spec_code(e: ErrorCode) -> int {
    match e {
        ErrorCode::DE_SAMEFILE => 0x71,
        ErrorCode::DE_MANYSRC1DEST => 0x72,
        ErrorCode::DE_DIFFDIR => 0x73,
        ErrorCode::DE_ROOTDIR => 0x74,
        ErrorCode::DE_OPCANCELLED => 0x75,
        ErrorCode::DE_DESTSUBTREE => 0x76,
        ErrorCode::DE_ACCESSDENIEDSRC => 0x78,
        ErrorCode::DE_PATHTOODEEP => 0x79,
        ErrorCode::DE_MANYDEST => 0x7A,
        ErrorCode::DE_INVALIDFILES => 0x7C,
        ErrorCode::DE_DESTSAMETREE => 0x7D,
        ErrorCode::DE_FLDDESTISFILE => 0x7E,
        ErrorCode::DE_FILEDESTISFLD => 0x80,
        ErrorCode::DE_FILENAMETOOLONG => 0x81,
        ErrorCode::DE_DEST_IS_CDROM => 0x82,
        ErrorCode::DE_DEST_IS_DVD => 0x83,
        ErrorCode::DE_DEST_IS_CDRECORD => 0x84,
        ErrorCode::DE_FILE_TOO_LARGE => 0x85,
        ErrorCode::DE_SRC_IS_CDROM => 0x86,
        ErrorCode::DE_SRC_IS_DVD => 0x87,
        ErrorCode::DE_SRC_IS_CDRECORD => 0x88,
        ErrorCode::DE_ERROR_MAX => 0xB7,
        ErrorCode::UNKNOWN => 0x402,
        ErrorCode::ERRORONDEST => 0x10000,
        ErrorCode::DE_ROOTDIR_ERRORONDEST => 0x10074,
    }
}

/// The table read in the other direction: which code, if any, a numeric
/// value belongs to.
pub open spec fn spec_from_code(c: int) -> Option<ErrorCode> {
    if c == 0x71 {
        Some(ErrorCode::DE_SAMEFILE)
    } else if c == 0x72 {
        Some(ErrorCode::DE_MANYSRC1DEST)
    } else if c == 0x73 {
        Some(ErrorCode::DE_DIFFDIR)
    } else if c == 0x74 {
        Some(ErrorCode::DE_ROOTDIR)
    } else if c == 0x75 {
        Some(ErrorCode::DE_OPCANCELLED)
    } else if c == 0x76 {
        Some(ErrorCode::DE_DESTSUBTREE)
    } else if c == 0x78 {
        Some(ErrorCode::DE_ACCESSDENIEDSRC)
    } else if c == 0x79 {
        Some(ErrorCode::DE_PATHTOODEEP)
    } else if c == 0x7A {
        Some(ErrorCode::DE_MANYDEST)
    } else if c == 0x7C {
        Some(ErrorCode::DE_INVALIDFILES)
    } else if c == 0x7D {
        Some(ErrorCode::DE_DESTSAMETREE)
    } else if c == 0x7E {
        Some(ErrorCode::DE_FLDDESTISFILE)
    } else if c == 0x80 {
        Some(ErrorCode::DE_FILEDESTISFLD)
    } else if c == 0x81 {
        Some(ErrorCode::DE_FILENAMETOOLONG)
    } else if c == 0x82 {
        Some(ErrorCode::DE_DEST_IS_CDROM)
    } else if c == 0x83 {
        Some(ErrorCode::DE_DEST_IS_DVD)
    } else if c == 0x84 {
        Some(ErrorCode::DE_DEST_IS_CDRECORD)
    } else if c == 0x85 {
        Some(ErrorCode::DE_FILE_TOO_LARGE)
    } else if c == 0x86 {
        Some(ErrorCode::DE_SRC_IS_CDROM)
    } else if c == 0x87 {
        Some(ErrorCode::DE_SRC_IS_DVD)
    } else if c == 0x88 {
        Some(ErrorCode::DE_SRC_IS_CDRECORD)
    } else if c == 0xB7 {
        Some(ErrorCode::DE_ERROR_MAX)
    } else if c == 0x402 {
        Some(ErrorCode::UNKNOWN)
    } else if c == 0x10000 {
        Some(ErrorCode::ERRORONDEST)
    } else if c == 0x10074 {
        Some(ErrorCode::DE_ROOTDIR_ERRORONDEST)
    } else {
        None
    }
}

/// The category assigned to each code of the table.
pub open spec fn spec_error_kind(e: ErrorCode) -> ErrorKind {
    match e {
        ErrorCode::DE_SAMEFILE => ErrorKind::InvalidInput,
        ErrorCode::DE_MANYSRC1DEST => ErrorKind::InvalidInput,
        ErrorCode::DE_DIFFDIR => ErrorKind::InvalidInput,
        ErrorCode::DE_ROOTDIR => ErrorKind::InvalidInput,
        ErrorCode::DE_OPCANCELLED => ErrorKind::Interrupted,
        ErrorCode::DE_DESTSUBTREE => ErrorKind::InvalidInput,
        ErrorCode::DE_ACCESSDENIEDSRC => ErrorKind::PermissionDenied,
        ErrorCode::DE_PATHTOODEEP => ErrorKind::InvalidInput,
        ErrorCode::DE_MANYDEST => ErrorKind::InvalidInput,
        ErrorCode::DE_INVALIDFILES => ErrorKind::NotFound,
        ErrorCode::DE_DESTSAMETREE => ErrorKind::InvalidInput,
        ErrorCode::DE_FLDDESTISFILE => ErrorKind::AlreadyExists,
        ErrorCode::DE_FILEDESTISFLD => ErrorKind::AlreadyExists,
        ErrorCode::DE_FILENAMETOOLONG => ErrorKind::InvalidInput,
        ErrorCode::DE_DEST_IS_CDROM => ErrorKind::PermissionDenied,
        ErrorCode::DE_DEST_IS_DVD => ErrorKind::PermissionDenied,
        ErrorCode::DE_DEST_IS_CDRECORD => ErrorKind::PermissionDenied,
        ErrorCode::DE_FILE_TOO_LARGE => ErrorKind::InvalidData,
        ErrorCode::DE_SRC_IS_CDROM => ErrorKind::PermissionDenied,
        ErrorCode::DE_SRC_IS_DVD => ErrorKind::PermissionDenied,
        ErrorCode::DE_SRC_IS_CDRECORD => ErrorKind::PermissionDenied,
        ErrorCode::DE_ERROR_MAX => ErrorKind::Other,
        ErrorCode::UNKNOWN => ErrorKind::Other,
        ErrorCode::ERRORONDEST => ErrorKind::Other,
        ErrorCode::DE_ROOTDIR_ERRORONDEST => ErrorKind::InvalidInput,
    }
}

/// The description associated with each code of the table.
pub open spec fn spec_description(e: ErrorCode) -> Seq<char> {
    match e {
        ErrorCode::DE_SAMEFILE => "The source and destination files are the same file."@,
        ErrorCode::DE_MANYSRC1DEST => "Multiple file paths were specified in the source buffer, but only one destination file path."@,
        ErrorCode::DE_DIFFDIR => "Rename operation was specified but the destination path is a different directory. Use the move operation instead."@,
        ErrorCode::DE_ROOTDIR => "The source is a root directory, which cannot be moved or renamed."@,
        ErrorCode::DE_OPCANCELLED => "The operation was canceled."@,
        ErrorCode::DE_DESTSUBTREE => "The destination is a subtree of the source."@,
        ErrorCode::DE_ACCESSDENIEDSRC => "Security settings denied access to the source."@,
        ErrorCode::DE_PATHTOODEEP => "The source or destination path exceeded or would exceed MAX_PATH."@,
        ErrorCode::DE_MANYDEST => "The operation involved multiple destination paths, which can fail in the case of a move operation."@,
        ErrorCode::DE_INVALIDFILES => "The path in the source or destination or both was invalid."@,
        ErrorCode::DE_DESTSAMETREE => "The source and destination have the same parent folder."@,
        ErrorCode::DE_FLDDESTISFILE => "The destination path is an existing file."@,
        ErrorCode::DE_FILEDESTISFLD => "The destination path is an existing folder."@,
        ErrorCode::DE_FILENAMETOOLONG => "The name of the file exceeds MAX_PATH."@,
        ErrorCode::DE_DEST_IS_CDROM => "The destination is a read-only CD-ROM, possibly unformatted."@,
        ErrorCode::DE_DEST_IS_DVD => "The destination is a read-only DVD, possibly unformatted."@,
        ErrorCode::DE_DEST_IS_CDRECORD => "The destination is a writable CD-ROM, possibly unformatted."@,
        ErrorCode::DE_FILE_TOO_LARGE => "The file involved in the operation is too large for the destination media or file system."@,
        ErrorCode::DE_SRC_IS_CDROM => "The source is a read-only CD-ROM, possibly unformatted."@,
        ErrorCode::DE_SRC_IS_DVD => "The source is a read-only DVD, possibly unformatted."@,
        ErrorCode::DE_SRC_IS_CDRECORD => "The source is a writable CD-ROM, possibly unformatted."@,
        ErrorCode::DE_ERROR_MAX => "MAX_PATH was exceeded during the operation."@,
        ErrorCode::UNKNOWN => "An unknown error occurred. This is typically due to an invalid path in the source or destination."@,
        ErrorCode::ERRORONDEST => "An unspecified error occurred on the destination."@,
        ErrorCode::DE_ROOTDIR_ERRORONDEST => "Destination is a root directory and cannot be renamed."@,
    }
}

impl ErrorCode {
    /// Looks a numeric value up in the table; values outside it are generic
    /// platform codes and belong to the host.
    pub fn from_code(code: i32) -> (r: Option<ErrorCode>)
        ensures
            r == spec_from_code(code as int),
    {
        match code {
            0x71 => Some(ErrorCode::DE_SAMEFILE),
            0x72 => Some(ErrorCode::DE_MANYSRC1DEST),
            0x73 => Some(ErrorCode::DE_DIFFDIR),
            0x74 => Some(ErrorCode::DE_ROOTDIR),
            0x75 => Some(ErrorCode::DE_OPCANCELLED),
            0x76 => Some(ErrorCode::DE_DESTSUBTREE),
            0x78 => Some(ErrorCode::DE_ACCESSDENIEDSRC),
            0x79 => Some(ErrorCode::DE_PATHTOODEEP),
            0x7A => Some(ErrorCode::DE_MANYDEST),
            0x7C => Some(ErrorCode::DE_INVALIDFILES),
            0x7D => Some(ErrorCode::DE_DESTSAMETREE),
            0x7E => Some(ErrorCode::DE_FLDDESTISFILE),
            0x80 => Some(ErrorCode::DE_FILEDESTISFLD),
            0x81 => Some(ErrorCode::DE_FILENAMETOOLONG),
            0x82 => Some(ErrorCode::DE_DEST_IS_CDROM),
            0x83 => Some(ErrorCode::DE_DEST_IS_DVD),
            0x84 => Some(ErrorCode::DE_DEST_IS_CDRECORD),
            0x85 => Some(ErrorCode::DE_FILE_TOO_LARGE),
            0x86 => Some(ErrorCode::DE_SRC_IS_CDROM),
            0x87 => Some(ErrorCode::DE_SRC_IS_DVD),
            0x88 => Some(ErrorCode::DE_SRC_IS_CDRECORD),
            0xB7 => Some(ErrorCode::DE_ERROR_MAX),
            0x402 => Some(ErrorCode::UNKNOWN),
            0x10000 => Some(ErrorCode::ERRORONDEST),
            0x10074 => Some(ErrorCode::DE_ROOTDIR_ERRORONDEST),
            _ => None,
        }
    }

    /// Returns the numeric value of this code. Reading the table back with
    /// `from_code` returns the code itself: the two directions are inverse.
    pub fn code(self) -> (c: i32)
        ensures
            c == spec_code(self),
            spec_from_code(c as int) == Some(self),
    {
        match self {
            ErrorCode::DE_SAMEFILE => 0x71,
            ErrorCode::DE_MANYSRC1DEST => 0x72,
            ErrorCode::DE_DIFFDIR => 0x73,
            ErrorCode::DE_ROOTDIR => 0x74,
            ErrorCode::DE_OPCANCELLED => 0x75,
            ErrorCode::DE_DESTSUBTREE => 0x76,
            ErrorCode::DE_ACCESSDENIEDSRC => 0x78,
            ErrorCode::DE_PATHTOODEEP => 0x79,
            ErrorCode::DE_MANYDEST => 0x7A,
            ErrorCode::DE_INVALIDFILES => 0x7C,
            ErrorCode::DE_DESTSAMETREE => 0x7D,
            ErrorCode::DE_FLDDESTISFILE => 0x7E,
            ErrorCode::DE_FILEDESTISFLD => 0x80,
            ErrorCode::DE_FILENAMETOOLONG => 0x81,
            ErrorCode::DE_DEST_IS_CDROM => 0x82,
            ErrorCode::DE_DEST_IS_DVD => 0x83,
            ErrorCode::DE_DEST_IS_CDRECORD => 0x84,
            ErrorCode::DE_FILE_TOO_LARGE => 0x85,
            ErrorCode::DE_SRC_IS_CDROM => 0x86,
            ErrorCode::DE_SRC_IS_DVD => 0x87,
            ErrorCode::DE_SRC_IS_CDRECORD => 0x88,
            ErrorCode::DE_ERROR_MAX => 0xB7,
            ErrorCode::UNKNOWN => 0x402,
            ErrorCode::ERRORONDEST => 0x10000,
            ErrorCode::DE_ROOTDIR_ERRORONDEST => 0x10074,
        }
    }

    /// Returns the description associated with this code.
    pub fn description(self) -> (r: &'static str)
        ensures
            r@ == spec_description(self),
    {
        match self {
            ErrorCode::DE_SAMEFILE => "The source and destination files are the same file.",
            ErrorCode::DE_MANYSRC1DEST => "Multiple file paths were specified in the source buffer, but only one destination file path.",
            ErrorCode::DE_DIFFDIR => "Rename operation was specified but the destination path is a different directory. Use the move operation instead.",
            ErrorCode::DE_ROOTDIR => "The source is a root directory, which cannot be moved or renamed.",
            ErrorCode::DE_OPCANCELLED => "The operation was canceled.",
            ErrorCode::DE_DESTSUBTREE => "The destination is a subtree of the source.",
            ErrorCode::DE_ACCESSDENIEDSRC => "Security settings denied access to the source.",
            ErrorCode::DE_PATHTOODEEP => "The source or destination path exceeded or would exceed MAX_PATH.",
            ErrorCode::DE_MANYDEST => "The operation involved multiple destination paths, which can fail in the case of a move operation.",
            ErrorCode::DE_INVALIDFILES => "The path in the source or destination or both was invalid.",
            ErrorCode::DE_DESTSAMETREE => "The source and destination have the same parent folder.",
            ErrorCode::DE_FLDDESTISFILE => "The destination path is an existing file.",
            ErrorCode::DE_FILEDESTISFLD => "The destination path is an existing folder.",
            ErrorCode::DE_FILENAMETOOLONG => "The name of the file exceeds MAX_PATH.",
            ErrorCode::DE_DEST_IS_CDROM => "The destination is a read-only CD-ROM, possibly unformatted.",
            ErrorCode::DE_DEST_IS_DVD => "The destination is a read-only DVD, possibly unformatted.",
            ErrorCode::DE_DEST_IS_CDRECORD => "The destination is a writable CD-ROM, possibly unformatted.",
            ErrorCode::DE_FILE_TOO_LARGE => "The file involved in the operation is too large for the destination media or file system.",
            ErrorCode::DE_SRC_IS_CDROM => "The source is a read-only CD-ROM, possibly unformatted.",
            ErrorCode::DE_SRC_IS_DVD => "The source is a read-only DVD, possibly unformatted.",
            ErrorCode::DE_SRC_IS_CDRECORD => "The source is a writable CD-ROM, possibly unformatted.",
            ErrorCode::DE_ERROR_MAX => "MAX_PATH was exceeded during the operation.",
            ErrorCode::UNKNOWN => "An unknown error occurred. This is typically due to an invalid path in the source or destination.",
            ErrorCode::ERRORONDEST => "An unspecified error occurred on the destination.",
            ErrorCode::DE_ROOTDIR_ERRORONDEST => "Destination is a root directory and cannot be renamed.",
        }
    }

    /// Returns the category suitable for this code.
    pub fn error_kind(self) -> (k: ErrorKind)
        ensures
            k == spec_error_kind(self),
    {
        match self {
            ErrorCode::DE_SAMEFILE => ErrorKind::InvalidInput,
            ErrorCode::DE_MANYSRC1DEST => ErrorKind::InvalidInput,
            ErrorCode::DE_DIFFDIR => ErrorKind::InvalidInput,
            ErrorCode::DE_ROOTDIR => ErrorKind::InvalidInput,
            ErrorCode::DE_OPCANCELLED => ErrorKind::Interrupted,
            ErrorCode::DE_DESTSUBTREE => ErrorKind::InvalidInput,
            ErrorCode::DE_ACCESSDENIEDSRC => ErrorKind::PermissionDenied,
            ErrorCode::DE_PATHTOODEEP => ErrorKind::InvalidInput,
            ErrorCode::DE_MANYDEST => ErrorKind::InvalidInput,
            ErrorCode::DE_INVALIDFILES => ErrorKind::NotFound,
            ErrorCode::DE_DESTSAMETREE => ErrorKind::InvalidInput,
            ErrorCode::DE_FLDDESTISFILE => ErrorKind::AlreadyExists,
            ErrorCode::DE_FILEDESTISFLD => ErrorKind::AlreadyExists,
            ErrorCode::DE_FILENAMETOOLONG => ErrorKind::InvalidInput,
            ErrorCode::DE_DEST_IS_CDROM => ErrorKind::PermissionDenied,
            ErrorCode::DE_DEST_IS_DVD => ErrorKind::PermissionDenied,
            ErrorCode::DE_DEST_IS_CDRECORD => ErrorKind::PermissionDenied,
            ErrorCode::DE_FILE_TOO_LARGE => ErrorKind::InvalidData,
            ErrorCode::DE_SRC_IS_CDROM => ErrorKind::PermissionDenied,
            ErrorCode::DE_SRC_IS_DVD => ErrorKind::PermissionDenied,
            ErrorCode::DE_SRC_IS_CDRECORD => ErrorKind::PermissionDenied,
            ErrorCode::DE_ERROR_MAX => ErrorKind::Other,
            ErrorCode::UNKNOWN => ErrorKind::Other,
            ErrorCode::ERRORONDEST => ErrorKind::Other,
            ErrorCode::DE_ROOTDIR_ERRORONDEST => ErrorKind::InvalidInput,
        }
    }
}

/// Checks the attribute word the platform reported for the target before
/// the legacy engine is allowed to run.
///
/// An all-ones word is the platform's convention for "attributes could not
/// be read": the target is missing or unreadable, and the platform's own
/// error code for the failed query — `last_os_error` — is handed back. An
/// absent directory bit (`0x10`) rejects the target as a plain file; a
/// directory symlink keeps the bit, because the bit reflects the link's
/// target type, so links to directories pass.
pub fn check_attributes(attributes: u32, last_os_error: i32) -> (r: Result<(), Error>)
    ensures
        attributes == 0xffff_ffffu32 ==> r == Err::<(), Error>(Error::Os { code: last_os_error }),
        attributes != 0xffff_ffffu32 && attributes & 0x10 == 0 ==> r == Err::<(), Error>(
            Error::NotDirectory,
        ),
        attributes != 0xffff_ffffu32 && attributes & 0x10 != 0 ==> r == Ok::<(), Error>(()),
{
    if attributes == 0xffff_ffff {
        Err(Error::Os { code: last_os_error })
    } else if attributes & 0x10 == 0 {
        Err(Error::NotDirectory)
    } else {
        Ok(())
    }
}

/// The source-path list for the legacy batch call: the resolved path with
/// its extended-length marker stripped and one more nul unit appended.
/// The resolved path already ends in a nul, so the list ends in two — the
/// batch mechanism's convention for terminating a multi-path list.
pub fn legacy_source(resolved: &[u16]) -> (r: Vec<u16>)
    ensures
        r@ == strip_extended(resolved@).push(0u16),
{
    let stripped = crate::path::strip_extended_length_path_prefix(resolved);
    let mut out: Vec<u16> = Vec::new();
    let mut i: usize = 0;
    while i < stripped.len()
        invariant
            0 <= i <= stripped@.len(),
            out@ == stripped@.subrange(0, i as int),
        decreases stripped@.len() - i,
    {
        out.push(*vstd::slice::slice_index_get(stripped, i));
        proof {
            assert(stripped@.subrange(0, i as int + 1) =~= stripped@.subrange(0, i as int).push(
                stripped@[i as int],
            ));
        }
        i = i + 1;
    }
    proof {
        assert(stripped@.subrange(0, stripped@.len() as int) =~= stripped@);
    }
    out.push(0);
    out
}

/// Interprets the legacy batch call's outcome.
///
/// A non-zero return is first looked up in the mechanism's own table, which
/// takes precedence; a value outside the table is a generic platform code.
/// A zero return still fails as interrupted when the aborted flag was set.
pub fn interpret_operation_result(result: i32, aborted: bool) -> (r: Result<(), Error>)
    ensures
        result != 0 ==> ((spec_from_code(result as int) matches Some(code) ==> r == Err::<
            (),
            Error,
        >(Error::Shell { code })) && (spec_from_code(result as int) is None ==> r == Err::<
            (),
            Error,
        >(Error::Os { code: result }))),
        result == 0 && aborted ==> r == Err::<(), Error>(Error::Aborted),
        result == 0 && !aborted ==> r == Ok::<(), Error>(()),
{
    if result != 0 {
        match ErrorCode::from_code(result) {
            Some(code) => Err(Error::Shell { code }),
            None => Err(Error::Os { code: result }),
        }
    } else if aborted {
        Err(Error::Aborted)
    } else {
        Ok(())
    }
}

} // verus!
