//! The check of a directory chosen as data root: it must exist, be a
//! directory, and be readable and writable.

use vstd::prelude::*;
use crate::text::join2;

verus! {

/// What the check of a directory found.
#[derive(Debug)]
pub struct DirectoryPermissionResult {
    pub path: String,
    pub exists: bool,
    pub readable: bool,
    pub writable: bool,
    pub is_directory: bool,
    pub error: Option<String>,
}

/// The message of a failed attempt: the prefix with the reason appended.
pub open spec fn attempt_message(prefix: Seq<char>, reason: Option<String>) -> Seq<char> {
    match reason {
        Some(e) => prefix + e@,
        None => prefix,
    }
}

/// Builds the result of checking `path`, stage by stage: existence, being a
/// directory, a read of its listing (`read`), a trial write in it
/// (`write`). `None` means the attempt was not made; an `Err` holds the
/// reason it failed. The first stage that does not pass is reported, and
/// the later stages count as not passed.
pub fn directory_permissions(
    path: String,
    exists: bool,
    is_directory: bool,
    read: Option<Result<(), String>>,
    write: Option<Result<(), String>>,
) -> (r: DirectoryPermissionResult)
    ensures
        r.path == path,
        r.exists == exists,
        r.is_directory == is_directory,
        r.readable == (exists && is_directory && read matches Some(Ok(_))),
        r.writable == (r.readable && write matches Some(Ok(_))),
        !exists ==> (r.error matches Some(m) && m@ == "Directory does not exist"@),
        exists && !is_directory ==> (r.error matches Some(m) && m@ == "Path is not a directory"@),
        exists && is_directory && !r.readable ==> (r.error matches Some(m) && m@ == attempt_message(
            "Cannot read directory: "@,
            match read {
                Some(Err(e)) => Some(e),
                _ => None,
            },
        )),
        r.readable && !r.writable ==> (r.error matches Some(m) && m@ == attempt_message(
            "Cannot write to directory: "@,
            match write {
                Some(Err(e)) => Some(e),
                _ => None,
            },
        )),
        r.writable ==> r.error is None,
{
    if !exists {
        return DirectoryPermissionResult {
            path,
            exists,
            readable: false,
            writable: false,
            is_directory,
            error: Some(String::from_str("Directory does not exist")),
        };
    }
    if !is_directory {
        return DirectoryPermissionResult {
            path,
            exists,
            readable: false,
            writable: false,
            is_directory,
            error: Some(String::from_str("Path is not a directory")),
        };
    }
    match read {
        Some(Ok(())) => {},
        Some(Err(e)) => {
            return DirectoryPermissionResult {
                path,
                exists,
                readable: false,
                writable: false,
                is_directory,
                error: Some(join2("Cannot read directory: ", e.as_str())),
            };
        },
        None => {
            return DirectoryPermissionResult {
                path,
                exists,
                readable: false,
                writable: false,
                is_directory,
                error: Some(String::from_str("Cannot read directory: ")),
            };
        },
    }
    match write {
        Some(Ok(())) => DirectoryPermissionResult {
            path,
            exists,
            readable: true,
            writable: true,
            is_directory,
            error: None,
        },
        Some(Err(e)) => DirectoryPermissionResult {
            path,
            exists,
            readable: true,
            writable: false,
            is_directory,
            error: Some(join2("Cannot write to directory: ", e.as_str())),
        },
        None => DirectoryPermissionResult {
            path,
            exists,
            readable: true,
            writable: false,
            is_directory,
            error: Some(String::from_str("Cannot write to directory: ")),
        },
    }
}

} // verus!
