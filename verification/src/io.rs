//! Trusted access to the filesystem and to the metadata parser.
//!
//! Each function here wraps exactly one call into an outside crate. What
//! these calls return depends on the state of the filesystem at the moment
//! of the call, so none of them promises anything about its result; the
//! verified callers state what holds of every outcome instead.

use vstd::prelude::*;
use crate::paths::FilePath;

verus! {

/// Relies on fs_err::metadata: it succeeds exactly when the path can be
/// stat'ed, which is how the executor observes that a path exists.
#[verifier::external_body]
pub(crate) fn path_exists(p: &FilePath) -> bool {
    let pb: std::path::PathBuf = p.parts.iter().collect();
    fs_err::metadata(&pb).is_ok()
}

/// Relies on fs_err::metadata: the metadata of a directory carries its
/// read-only permission flag.
#[verifier::external_body]
pub(crate) fn dir_writable(p: &FilePath) -> bool {
    let pb: std::path::PathBuf = p.parts.iter().collect();
    match fs_err::metadata(&pb) {
        Ok(m) => !m.permissions().readonly(),
        Err(_) => false,
    }
}

/// Relies on fs_err::create_dir_all: it creates the directory together
/// with every missing ancestor.
#[verifier::external_body]
pub(crate) fn make_dir_tree(p: &FilePath) -> bool {
    let pb: std::path::PathBuf = p.parts.iter().collect();
    fs_err::create_dir_all(&pb).is_ok()
}

/// Relies on fs_err::copy: on success the destination file holds the same
/// bytes that the source file held.
#[verifier::external_body]
pub(crate) fn copy_bytes(source: &FilePath, destination: &FilePath) -> bool {
    let from: std::path::PathBuf = source.parts.iter().collect();
    let to: std::path::PathBuf = destination.parts.iter().collect();
    fs_err::copy(&from, &to).is_ok()
}

/// Relies on audiotags::Tag::read_from_path: it attempts to parse embedded
/// audio metadata and fails on files that are not audio.
#[verifier::external_body]
pub(crate) fn probe_tags(p: &FilePath) -> bool {
    let pb: std::path::PathBuf = p.parts.iter().collect();
    audiotags::Tag::new().read_from_path(&pb).is_ok()
}

} // verus!
