//! What this library takes on trust: contracts for the few functions of the
//! standard library and of `resolve-path` that its verified code calls.
//! Nothing here is proved; every other module is.

use resolve_path::PathResolveExt;
use std::path::PathBuf;
use vstd::prelude::*;

verus! {

/// `std::path::PathBuf`, carried through as it is: the library never looks
/// inside a path.
#[verifier::external_type_specification]
#[verifier::external_body]
pub struct ExPathBuf(std::path::PathBuf);

/// `std::io::Error`, the error with which a path fails to resolve.
#[verifier::external_type_specification]
#[verifier::external_body]
pub struct ExIoError(std::io::Error);

/// `String::push` appends one character to the end of the string and leaves
/// the characters before it as they were.
pub assume_specification[ String::push ](s: &mut String, ch: char)
    ensures
        final(s)@ == old(s)@.push(ch),
;

/// `PathBuf::clone` hands back a path equal to the one it was given.
pub assume_specification[ <PathBuf as Clone>::clone ](path: &PathBuf) -> (copy: PathBuf)
    ensures
        copy == *path,
;

/// `PathResolveExt::try_resolve` of `resolve-path` anchors a path: an absolute
/// one comes back as it is, one that starts with `~` is placed in the user's
/// home directory, and any other in the current directory. It fails where the
/// current directory cannot be determined, or the home directory where the
/// path needs it. The outcome depends on the process and its environment, so
/// nothing is claimed of it.
#[verifier::external_body]
pub(crate) fn try_resolve(path: &PathBuf) -> (resolved: Result<PathBuf, std::io::Error>) {
    path.try_resolve().map(|anchored| anchored.into_owned())
}

} // verus!
