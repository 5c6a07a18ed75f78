//! Draining the queue of callbacks that wait for the scripting thread.

use vstd::prelude::*;
use crate::queue::Queue;

verus! {

/// Takes every waiting callback out of the queue, oldest first, for the
/// scripting thread to run. The embedding calls this on every turn of its
/// event loop: a callback that is never taken out never answers, and the
/// native thread that waits for its answer waits for ever.
pub fn poll<T>(queue: &mut Queue<T>) -> (r: Vec<T>)
    ensures
        r@ == old(queue)@,
        final(queue)@ == Seq::<T>::empty(),
{
    let mut taken: Vec<T> = Vec::new();
    loop
        invariant
            taken@ + queue@ == old(queue)@,
        ensures
            taken@ == old(queue)@,
            queue@ == Seq::<T>::empty(),
        decreases queue@.len(),
    {
        let ghost before = queue@;
        match queue.pop() {
            Some(item) => {
                let ghost taken_before = taken@;
                taken.push(item);
                assert(taken@ + queue@ =~= taken_before + before);
            },
            None => {
                assert(taken@ + queue@ =~= taken@);
                assert(queue@ =~= Seq::<T>::empty());
                break;
            },
        }
    }
    taken
}

} // verus!
