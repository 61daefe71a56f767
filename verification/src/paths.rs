//! Resolution of the well-known directories, relative to an explicit
//! home-directory value handed in by the caller.

use vstd::prelude::*;
use vstd::string::StringExecFns;

verus! {

/// Appends a path fragment to the given home directory.
pub fn home_path_to(home: &str, path: &str) -> (r: String)
    ensures
        r@ == home@ + path@,
{
    let mut r = String::from_str(home);
    r.append(path);
    r
}

} // verus!
