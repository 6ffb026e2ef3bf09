//! What the host platform answers on a desktop: app files live in the
//! working directory, the screen has no cutout, and no directory import
//! is ever pending.

use vstd::prelude::*;
use vstd::string::*;

verus! {

/// The directory for the app's own files (logs and the like).
pub fn files_dir() -> (dir: Option<String>)
    ensures
        dir matches Some(d) && d@ == "."@,
{
    Some(String::from_str("."))
}

/// The height of the screen cutout at the top, in physical pixels.
pub fn safe_inset_top() -> (inset: i32)
    ensures
        inset == 0,
{
    0
}

/// The local path of a finished directory import, if one is waiting.
pub fn poll_import_result() -> (path: Option<String>)
    ensures
        path is None,
{
    None
}

} // verus!
