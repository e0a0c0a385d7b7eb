//! The decisions around the file system: where the manifest is, what the
//! license file is called, and how a file is replaced. The probing and the
//! writing itself are the caller's.

use vstd::prelude::*;
use vstd::string::*;
use crate::error::LicenseError;

verus! {

/// What stands at a path.
#[derive(Clone, Copy, Debug, PartialEq, Eq, Structural)]
pub enum PathKind {
    /// Nothing.
    Missing,
    /// A regular file.
    File,
    /// A directory, or anything else that is no regular file.
    Other,
}

/// What to do to get a fresh file at a path.
#[derive(Clone, Copy, Debug, PartialEq, Eq, Structural)]
pub enum WriteAction {
    /// Create the file and write to it.
    Create,
    /// Remove the old file, warn that it was discarded, then look again.
    RemoveOld,
}

/// What `fresh_file_step` answers for each state of the path.
pub open spec fn fresh_file_decision(found: PathKind, removed: bool) -> Result<
    WriteAction,
    LicenseError,
> {
    match found {
        PathKind::Missing => Ok(WriteAction::Create),
        PathKind::File => if removed {
            Err(LicenseError::IOError)
        } else {
            Ok(WriteAction::RemoveOld)
        },
        PathKind::Other => Err(LicenseError::PathConflict),
    }
}

/// Decides the next step towards a fresh file at a path, given what was
/// found there and whether an old file was removed already. An old file is
/// removed once: where a file is found again after that, the removal has
/// failed. Anything that is no regular file is never touched.
pub fn fresh_file_step(found: PathKind, removed: bool) -> (r: Result<WriteAction, LicenseError>)
    ensures
        r == fresh_file_decision(found, removed),
{
    match found {
        PathKind::Missing => Ok(WriteAction::Create),
        PathKind::File => if removed {
            Err(LicenseError::IOError)
        } else {
            Ok(WriteAction::RemoveOld)
        },
        PathKind::Other => Err(LicenseError::PathConflict),
    }
}

/// Writing to a path goes on for at most two looks at it: after a removal
/// the next step creates the file or fails.
pub proof fn lemma_fresh_file_terminates(found: PathKind)
    ensures
        fresh_file_decision(found, true) != Ok::<WriteAction, LicenseError>(
            WriteAction::RemoveOld,
        ),
        fresh_file_decision(PathKind::Missing, true) == Ok::<WriteAction, LicenseError>(
            WriteAction::Create,
        ),
{
}

/// Whether `index` is the first directory that holds a manifest.
pub open spec fn is_first_manifest(present: Seq<bool>, index: int) -> bool {
    &&& 0 <= index < present.len()
    &&& present[index]
    &&& forall|j: int| 0 <= j < index ==> !present[j]
}

/// Finds the directory that holds the manifest. `present` says of the
/// working directory and then of each directory above it, up to the root,
/// whether it holds one; the result is the place of the nearest that does.
pub fn get_crate_root(present: &Vec<bool>) -> (r: Result<usize, LicenseError>)
    ensures
        match r {
            Ok(index) => is_first_manifest(present@, index as int),
            Err(e) => e == LicenseError::ManifestNotFound && forall|j: int|
                0 <= j < present.len() ==> !present[j],
        },
{
    let mut i: usize = 0;
    while i < present.len()
        invariant
            i <= present.len(),
            forall|j: int| 0 <= j < i ==> !present[j],
        decreases present.len() - i,
    {
        if present[i] {
            return Ok(i);
        }
        i += 1;
    }
    Err(LicenseError::ManifestNotFound)
}

/// A manifest at the topmost directory alone is found from any depth.
pub proof fn lemma_topmost_manifest_found(present: Seq<bool>)
    requires
        present.len() > 0,
        present.last(),
        forall|j: int| 0 <= j < present.len() - 1 ==> !present[j],
    ensures
        is_first_manifest(present, present.len() - 1),
        forall|index: int| is_first_manifest(present, index) ==> index == present.len() - 1,
{
}

/// Whether a flag that was given `count` times is on.
pub fn flag_enabled(count: Option<u8>) -> (r: bool)
    ensures
        r == (count matches Some(n) && n > 0),
{
    match count {
        Some(n) => n > 0,
        None => false,
    }
}

/// The name of the license file: with the prefix or without.
pub fn license_filename(prefix: bool) -> (r: &'static str)
    ensures
        r@ == (if prefix {
            "JLICENSE.md"@
        } else {
            "LICENSE.md"@
        }),
{
    if prefix {
        "JLICENSE.md"
    } else {
        "LICENSE.md"
    }
}

/// The log filter that is used where the environment sets none.
pub fn default_log_filter(debug: bool) -> (r: &'static str)
    ensures
        r@ == (if debug {
            "debug"@
        } else {
            "warn"@
        }),
{
    if debug {
        "debug"
    } else {
        "warn"
    }
}

/// The path of `filename` in the directory `root`.
pub fn path_in(root: &str, filename: &str) -> (r: String)
    ensures
        r@ == root@ + "/"@ + filename@,
{
    root.to_owned().concat("/").concat(filename)
}

} // verus!
