use vstd::prelude::*;
use crate::error::AddError;
use crate::paths::{join_path, joined_path};

verus! {

/// The conventional primary source directory of a dependency.
pub const SOURCE_DIR: &'static str = "src";

/// The conventional library root of a dependency, tried second.
pub const LIBRARY_DIR: &'static str = "lib";

/// The two directories of a checkout at `repository_path` to probe, in the
/// order they are tried.
pub fn source_candidates(repository_path: &str) -> (r: (String, String))
    ensures
        r.0@ == joined_path(repository_path@, SOURCE_DIR@),
        r.1@ == joined_path(repository_path@, LIBRARY_DIR@),
{
    (join_path(repository_path, SOURCE_DIR), join_path(repository_path, LIBRARY_DIR))
}

/// The source directory of a checkout, given which of the two candidates are
/// directories: the primary source directory first, then the library root.
pub fn get_src_directory(src_is_dir: bool, lib_is_dir: bool) -> (r: Result<String, ()>)
    ensures
        src_is_dir ==> (r matches Ok(d) && d@ == SOURCE_DIR@),
        !src_is_dir && lib_is_dir ==> (r matches Ok(d) && d@ == LIBRARY_DIR@),
        !src_is_dir && !lib_is_dir ==> r is Err,
{
    if src_is_dir {
        Ok(String::from_str(SOURCE_DIR))
    } else if lib_is_dir {
        Ok(String::from_str(LIBRARY_DIR))
    } else {
        Err(())
    }
}

/// The source directory to register: the detected one, else the one the
/// caller gave; with neither, the source directory cannot be inferred.
pub fn choose_source_dir(detected: Result<String, ()>, override_dir: Option<String>) -> (r: Result<
    String,
    AddError,
>)
    ensures
        detected matches Ok(d) ==> r == Ok::<String, AddError>(d),
        detected is Err ==> (override_dir matches Some(o) ==> r == Ok::<String, AddError>(o)),
        detected is Err && override_dir is None ==> r == Err::<String, AddError>(
            AddError::CannotInferSourceDir,
        ),
{
    match detected {
        Ok(d) => Ok(d),
        Err(()) => match override_dir {
            Some(o) => Ok(o),
            None => Err(AddError::CannotInferSourceDir),
        },
    }
}

} // verus!
