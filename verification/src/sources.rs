//! Which files a walk over a directory keeps.

use vstd::prelude::*;

verus! {

/// The extension is one of the wanted file types.
pub open spec fn wanted(extension: Seq<char>, file_types: Seq<String>) -> bool {
    exists|i: int| 0 <= i < file_types.len() && (#[trigger] file_types[i])@ == extension
}

/// Tells whether a file with this extension is kept.
pub fn is_wanted(extension: &String, file_types: &Vec<String>) -> (r: bool)
    ensures
        r == wanted(extension@, file_types@),
{
    let mut i: usize = 0;
    while i < file_types.len()
        invariant
            i <= file_types@.len(),
            forall|k: int| 0 <= k < i ==> (#[trigger] file_types@[k])@ != extension@,
        decreases file_types@.len() - i,
    {
        if file_types[i] == *extension {
            return true;
        }
        i += 1;
    }
    false
}

} // verus!
