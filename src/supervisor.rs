//! Starting the workers of a table.
use vstd::prelude::*;

verus! {

/// The outcome of starting every worker of a table: `spawned[i]` tells
/// whether the worker with id `ids[i]` could be started. Every worker is
/// attempted; the first that failed is reported.
pub fn spawn_report(ids: &Vec<i32>, spawned: &Vec<bool>) -> (r: Result<(), i32>)
    requires
        ids@.len() == spawned@.len(),
    ensures
        r is Ok <==> forall|i: int| 0 <= i < spawned@.len() ==> spawned@[i],
        r matches Err(id) ==> exists|i: int|
            0 <= i < spawned@.len() && !spawned@[i] && ids@[i] == id && forall|j: int|
                0 <= j < i ==> spawned@[j],
{
    let mut i: usize = 0;
    while i < spawned.len()
        invariant
            ids@.len() == spawned@.len(),
            i <= spawned@.len(),
            forall|j: int| 0 <= j < i ==> spawned@[j],
        decreases spawned@.len() - i,
    {
        if !spawned[i] {
            return Err(ids[i]);
        }
        i = i + 1;
    }
    Ok(())
}

} // verus!
