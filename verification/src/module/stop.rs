//! Shutdown of the native-loop thread.

use vstd::prelude::*;
use crate::gtk_dispatch::GtkDispatcher;

verus! {

/// Closes the dispatch queue, on the native-loop thread: from now on
/// nothing is scheduled. What was scheduled before is handed over, oldest
/// first, to be run before the loop exits. A dispatcher that is closed
/// already has nothing left to hand over but what still waits.
pub fn stop<T>(dispatcher: &mut GtkDispatcher<T>) -> (r: Vec<T>)
    ensures
        final(dispatcher).is_stopped(),
        final(dispatcher).wait_depth() == old(dispatcher).wait_depth(),
        r@ == old(dispatcher).pending(),
        final(dispatcher).pending() == Seq::<T>::empty(),
{
    dispatcher.mark_stopped();
    let mut remaining: Vec<T> = Vec::new();
    loop
        invariant
            dispatcher.is_stopped(),
            dispatcher.wait_depth() == old(dispatcher).wait_depth(),
            remaining@ + dispatcher.pending() == old(dispatcher).pending(),
        ensures
            dispatcher.is_stopped(),
            dispatcher.wait_depth() == old(dispatcher).wait_depth(),
            remaining@ == old(dispatcher).pending(),
            dispatcher.pending() == Seq::<T>::empty(),
        decreases dispatcher.pending().len(),
    {
        let ghost before = dispatcher.pending();
        match dispatcher.dispatch_pending() {
            Some(task) => {
                let ghost remaining_before = remaining@;
                remaining.push(task);
                assert(remaining@ + dispatcher.pending() =~= remaining_before + before);
            },
            None => {
                assert(remaining@ + dispatcher.pending() =~= remaining@);
                assert(dispatcher.pending() =~= Seq::<T>::empty());
                break;
            },
        }
    }
    remaining
}

} // verus!
