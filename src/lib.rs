use vstd::prelude::*;

pub mod outcome;
pub mod request;

verus! {

/// Passes a file path through unchanged.
pub fn get_file_path(file_path: String) -> (r: Result<String, String>)
    ensures
        r == Ok::<String, String>(file_path),
{
    Ok(file_path)
}

} // verus!
