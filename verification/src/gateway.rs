//! The scan of the running-application list.
//!
//! The operating system reports the running applications as a list of names.
//! Activation targets the first application whose name equals the target
//! exactly — no normalization, no case folding. The list is obtained and the
//! activation requested by the surrounding binary; which entry matches is
//! decided here.

use vstd::prelude::*;

verus! {

/// The position of the first running application whose name equals the
/// target exactly, if any: the entry whose activation is requested.
pub fn find_app_index(names: &Vec<String>, target: &String) -> (r: Option<usize>)
    ensures
        r matches Some(i) ==> {
            &&& (i as int) < names@.len()
            &&& names@[i as int]@ == target@
            &&& forall|k: int| 0 <= k < i ==> names@[k]@ != target@
        },
        r is None ==> forall|k: int| 0 <= k < names@.len() ==> names@[k]@ != target@,
{
    let n = names.len();
    let mut i: usize = 0;
    while i < n
        invariant
            i <= n,
            n == names@.len(),
            forall|k: int| 0 <= k < i ==> names@[k]@ != target@,
        decreases n - i,
    {
        if names[i] == *target {
            return Some(i);
        }
        i += 1;
    }
    None
}

} // verus!
