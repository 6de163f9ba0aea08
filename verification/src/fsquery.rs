//! Read-only queries against an instance, without mounting it.
//!
//! The storage collaborator resolves a path inside the instance and
//! reports what it found; these functions turn that report into the
//! operation's outcome.  Neither operation ever mutates the instance.

use vstd::prelude::*;

use crate::errors::ErrorKind;

verus! {

/// Outcome of listing a directory: the entries the store read, in the
/// store's order, or the reason the path cannot be listed.
pub fn list_outcome(path_exists: bool, is_dir: bool, entries: Vec<String>) -> (r: Result<
    Vec<String>,
    ErrorKind,
>)
    ensures
        !path_exists ==> r == Err::<Vec<String>, ErrorKind>(ErrorKind::NotFound),
        (path_exists && !is_dir) ==> r == Err::<Vec<String>, ErrorKind>(ErrorKind::NotADirectory),
        (path_exists && is_dir) ==> r == Ok::<Vec<String>, ErrorKind>(entries),
{
    if !path_exists {
        Err(ErrorKind::NotFound)
    } else if !is_dir {
        Err(ErrorKind::NotADirectory)
    } else {
        Ok(entries)
    }
}

/// Outcome of reading a file: the bytes the store read, or the reason
/// the path cannot be read.
pub fn read_outcome(path_exists: bool, is_dir: bool, content: Vec<u8>) -> (r: Result<
    Vec<u8>,
    ErrorKind,
>)
    ensures
        !path_exists ==> r == Err::<Vec<u8>, ErrorKind>(ErrorKind::NotFound),
        (path_exists && is_dir) ==> r == Err::<Vec<u8>, ErrorKind>(ErrorKind::IsADirectory),
        (path_exists && !is_dir) ==> r == Ok::<Vec<u8>, ErrorKind>(content),
{
    if !path_exists {
        Err(ErrorKind::NotFound)
    } else if is_dir {
        Err(ErrorKind::IsADirectory)
    } else {
        Ok(content)
    }
}

} // verus!
