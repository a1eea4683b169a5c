//! Processor groups where the system does not have them.
//!
//! Only Windows divides its processors into groups, of at most 64 each, and only there is the number
//! of groups a reading of the system.

use vstd::prelude::*;

verus! {

/// Number of processor groups on a system without processor groups.
pub fn num_groups() -> (groups: u16)
    ensures
        groups == 0,
{
    0
}

/// Number of active processors in a group, on a system without processor groups.
pub fn get_group_processor_count(_group: u16) -> (count: u32)
    ensures
        count == 0,
{
    0
}

} // verus!
