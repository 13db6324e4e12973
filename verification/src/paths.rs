//! Filesystem paths as the command-line arguments carry them.

use vstd::prelude::*;
use std::path::{Path, PathBuf};

verus! {

/// `std::path::PathBuf`, carried through the library unopened.
#[verifier::external_type_specification]
#[verifier::external_body]
pub struct ExPathBuf(std::path::PathBuf);

/// The path `PathBuf::from` makes of a string; it depends on the string
/// alone.
pub uninterp spec fn path_of(s: Seq<char>) -> PathBuf;

/// `PathBuf::from(&str)`. Trusted to return the path of the given string:
/// equal strings give equal paths.
#[verifier::external_body]
pub fn path_from(s: &str) -> (p: PathBuf)
    ensures
        p == path_of(s@),
{
    PathBuf::from(s)
}

/// `std::path::Path`, carried through the library unopened.
#[verifier::external_type_specification]
#[verifier::external_body]
pub struct ExPath(std::path::Path);

/// The owned copy `Path::to_path_buf` makes of a path; it depends on the
/// path alone.
pub uninterp spec fn owned_path(p: &Path) -> PathBuf;

/// `Path::to_path_buf`. Trusted to return the owned copy of the path.
#[verifier::external_body]
pub fn to_path_buf(p: &Path) -> (r: PathBuf)
    ensures
        r == owned_path(p),
{
    p.to_path_buf()
}

} // verus!
