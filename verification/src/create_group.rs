//! Creating a group: an administrative record in ordinary mutable storage,
//! initialized empty with its capacity and its authority.
use vstd::prelude::*;
use crate::state::Group;

verus! {

/// Initializes a fresh group: empty, with the given capacity
/// (0 = unbounded) and authority. No ledger interaction is involved.
pub fn create_group(max_size: u64, group_authority: &[u8; 32]) -> (g: Group)
    ensures
        g.size == 0,
        g.max_size == max_size,
        g.authority@ == group_authority@,
        g.wf(),
{
    Group { size: 0, max_size, authority: *group_authority }
}

} // verus!
