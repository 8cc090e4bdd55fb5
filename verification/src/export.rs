//! Where a saved image goes.
//!
//! Saving never overwrites a file: when the destination already holds a file
//! of the image's name, the image is written under that name with a fixed
//! prefix in front of it.

use vstd::prelude::*;
use vstd::string::StringExecFns;

verus! {

/// The name under which an image called `file_name` is saved, given whether
/// the destination already holds a file of that name.
pub open spec fn destination_name(file_name: Seq<char>, taken: bool) -> Seq<char> {
    if taken {
        "mosaic_"@ + file_name
    } else {
        file_name
    }
}

/// The name to save under: `file_name` itself while it is free at the
/// destination, else `file_name` with `mosaic_` in front of it.
pub fn save_file_name(file_name: &str, taken: bool) -> (name: String)
    ensures
        name@ == destination_name(file_name@, taken),
{
    if taken {
        String::from_str("mosaic_").concat(file_name)
    } else {
        String::from_str(file_name)
    }
}

} // verus!
