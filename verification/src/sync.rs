//! The nesting depth of calls that are sent off without waiting for their
//! result. The depth belongs to one thread; the embedding keeps one per
//! thread and hands it in.

use vstd::prelude::*;

verus! {

/// Whether the current call is to be sent off without waiting.
pub fn should_fire_and_forget(depth: u32) -> (r: bool)
    ensures
        r == (depth > 0),
{
    depth > 0
}

/// Enters a stretch in which calls are sent off without waiting.
pub fn enter_fire_and_forget(depth: &mut u32)
    requires
        *old(depth) < u32::MAX,
    ensures
        *final(depth) == *old(depth) + 1,
{
    *depth = *depth + 1;
}

/// Leaves such a stretch. Leaving when none was entered changes nothing.
pub fn exit_fire_and_forget(depth: &mut u32)
    ensures
        *old(depth) > 0 ==> *final(depth) == *old(depth) - 1,
        *old(depth) == 0 ==> *final(depth) == 0,
{
    let current = *depth;
    if current > 0 {
        *depth = current - 1;
    }
}

} // verus!
