//! Checks on the bundled resource folders.
use vstd::prelude::*;
use vstd::string::*;

verus! {

/// The error for a resource subfolder `name` that is missing under `base`.
pub open spec fn missing_subdir_message(name: Seq<char>, base: Seq<char>) -> Seq<char> {
    "Required resource subfolder '"@ + name + "' missing under '"@ + base + "'"@
}

/// Requires the subfolder `name` of `base`: `dir` is the joined path and
/// `exists` whether it is on disk. Gives the path when it exists, else the
/// error that names both folders.
pub fn require_subdir(base: &str, name: &str, dir: String, exists: bool) -> (r: Result<String, String>)
    ensures
        exists ==> r == Ok::<String, String>(dir),
        !exists ==> r is Err && r->Err_0@ == missing_subdir_message(name@, base@),
{
    if exists {
        Ok(dir)
    } else {
        let message = String::from_str("Required resource subfolder '")
            .concat(name)
            .concat("' missing under '")
            .concat(base)
            .concat("'");
        Err(message)
    }
}

} // verus!
