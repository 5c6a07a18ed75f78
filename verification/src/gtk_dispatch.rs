//! The queue of tasks bound for the native-loop thread, and the record of
//! whether the scripting thread is blocked waiting on that thread.
//!
//! A callback that native code fires while the scripting thread waits must
//! not wake the scripting event loop: the waiting thread drains the
//! callback queue itself. The wait depth tells the two situations apart.

use vstd::prelude::*;
use crate::queue::Queue;

verus! {

/// Dispatch state for the native-loop thread. `T` is a task.
pub struct GtkDispatcher<T> {
    queue: Queue<T>,
    js_wait_depth: usize,
    stopped: bool,
}

impl<T> GtkDispatcher<T> {
    /// The tasks that wait, oldest first.
    pub closed spec fn pending(&self) -> Seq<T> {
        self.queue@
    }

    /// How many waits of the scripting thread are in progress, one inside
    /// the other.
    pub closed spec fn wait_depth(&self) -> nat {
        self.js_wait_depth as nat
    }

    /// Whether the queue has been closed.
    pub closed spec fn is_stopped(&self) -> bool {
        self.stopped
    }

    /// A dispatcher with nothing queued, nobody waiting, and open.
    pub fn new() -> (r: Self)
        ensures
            r.pending() == Seq::<T>::empty(),
            r.wait_depth() == 0,
            !r.is_stopped(),
    {
        GtkDispatcher { queue: Queue::new(), js_wait_depth: 0, stopped: false }
    }

    /// How many waits of the scripting thread are in progress.
    pub fn js_wait_depth(&self) -> (r: usize)
        ensures
            r == self.wait_depth(),
    {
        self.js_wait_depth
    }

    /// Whether the scripting thread is blocked waiting on the native-loop
    /// thread.
    pub fn is_js_waiting(&self) -> (r: bool)
        ensures
            r == (self.wait_depth() > 0),
    {
        self.js_wait_depth > 0
    }

    /// Records that the scripting thread starts to wait.
    pub fn enter_js_wait(&mut self)
        requires
            old(self).wait_depth() < usize::MAX,
        ensures
            final(self).wait_depth() == old(self).wait_depth() + 1,
            final(self).pending() == old(self).pending(),
            final(self).is_stopped() == old(self).is_stopped(),
    {
        self.js_wait_depth = self.js_wait_depth + 1;
    }

    /// Records that a wait of the scripting thread is over. Without a
    /// wait in progress nothing changes.
    pub fn exit_js_wait(&mut self)
        ensures
            old(self).wait_depth() > 0 ==> final(self).wait_depth() == old(self).wait_depth() - 1,
            old(self).wait_depth() == 0 ==> final(self).wait_depth() == 0,
            final(self).pending() == old(self).pending(),
            final(self).is_stopped() == old(self).is_stopped(),
    {
        if self.js_wait_depth > 0 {
            self.js_wait_depth = self.js_wait_depth - 1;
        }
    }

    /// Queues a task for the native-loop thread. A closed queue takes
    /// nothing: the task comes back.
    pub fn schedule(&mut self, task: T) -> (r: Option<T>)
        ensures
            final(self).wait_depth() == old(self).wait_depth(),
            final(self).is_stopped() == old(self).is_stopped(),
            old(self).is_stopped() ==> r == Some(task) && final(self).pending() == old(self).pending(),
            !old(self).is_stopped() ==> r is None && final(self).pending() == old(self).pending().push(task),
    {
        if self.stopped {
            Some(task)
        } else {
            self.queue.push(task);
            None
        }
    }

    /// Takes the oldest waiting task for the native-loop thread to run,
    /// if there is one.
    pub fn dispatch_pending(&mut self) -> (r: Option<T>)
        ensures
            final(self).wait_depth() == old(self).wait_depth(),
            final(self).is_stopped() == old(self).is_stopped(),
            old(self).pending().len() == 0 ==> r is None && final(self).pending() == old(self).pending(),
            old(self).pending().len() > 0 ==> r == Some(old(self).pending()[0]) && final(self).pending() == old(self).pending().subrange(1, old(self).pending().len() as int),
    {
        self.queue.pop()
    }

    /// Closes the queue: from now on nothing is scheduled. What waits
    /// stays, to be drained.
    pub fn mark_stopped(&mut self)
        ensures
            final(self).is_stopped(),
            final(self).pending() == old(self).pending(),
            final(self).wait_depth() == old(self).wait_depth(),
    {
        self.stopped = true;
    }
}

} // verus!
