//! The in-flight registry of the server loop: for each stream identity the
//! task that runs on its behalf, known by its number, and the handle by which
//! that task can be told to abort.

use vstd::prelude::*;
use std::collections::HashMap;
use futures::future::AbortHandle;
use crate::runtime::ids::{UNTRACKED, nth_identity};

verus! {

/// The handle of an abortable task, of the `futures` crate.
#[verifier::external_type_specification]
#[verifier::external_body]
pub struct ExAbortHandle(futures::future::AbortHandle);

/// Calls `AbortHandle::abort`, which tells the task of this handle to stop at
/// its next suspension point.
///
/// Trusted: the call returns. Nothing is claimed of the task.
#[verifier::external_body]
fn signal_abort(handle: &AbortHandle) {
    handle.abort()
}

/// What the registry holds for an identity: the number of the task that runs
/// on its behalf, and the task's handle.
pub struct Entry {
    pub task: u64,
    pub handle: AbortHandle,
}

/// The registry. It holds at most one task for an identity, and none for the
/// untracked identity. It numbers the tasks, so that the end of a task can be
/// told from the end of its successor. Beside what it holds, the registry
/// keeps the record of the handles that it has told to abort.
pub struct Registry {
    processings: HashMap<u64, Entry>,
    next_task: u64,
    told: Ghost<Seq<AbortHandle>>,
}

impl View for Registry {
    type V = Map<u64, Entry>;

    closed spec fn view(&self) -> Map<u64, Entry> {
        self.processings@
    }
}

/// The registry after a task was made for a call under `stream_id`: where
/// the task was spawned under a tracked identity, it is held for the identity
/// in the place of what was held before; else the registry is as it was.
pub open spec fn registered(
    registry: Map<u64, Entry>,
    stream_id: u64,
    task: u64,
    handle: AbortHandle,
    spawned: bool,
) -> Map<u64, Entry> {
    if stream_id == UNTRACKED || !spawned {
        registry
    } else {
        registry.insert(stream_id, Entry { task, handle })
    }
}

/// The record `told` with the handle held for `stream_id`, if there is one,
/// at its end.
pub open spec fn told_after_cancel(
    told: Seq<AbortHandle>,
    registry: Map<u64, Entry>,
    stream_id: u64,
) -> Seq<AbortHandle> {
    if registry.contains_key(stream_id) {
        told.push(registry[stream_id].handle)
    } else {
        told
    }
}

/// The registry after the task `task`, which ran under `stream_id`, came to
/// its end: without the entry of the identity where the entry is that task's,
/// and as it was where the identity has no entry or that of another task.
pub open spec fn finished(registry: Map<u64, Entry>, stream_id: u64, task: u64) -> Map<u64, Entry> {
    if registry.contains_key(stream_id) && registry[stream_id].task == task {
        registry.remove(stream_id)
    } else {
        registry
    }
}

impl Registry {
    /// The handles that the registry has told to abort, in the order in
    /// which it told them.
    pub closed spec fn told(&self) -> Seq<AbortHandle> {
        self.told@
    }

    /// The number that the next task gets.
    pub closed spec fn next_task(&self) -> u64 {
        self.next_task
    }

    /// A registry that holds nothing, has numbered no task and has told no
    /// task to abort.
    pub fn new() -> (registry: Registry)
        ensures
            registry@ == Map::<u64, Entry>::empty(),
            registry.next_task() == 0,
            registry.told() == Seq::<AbortHandle>::empty(),
    {
        Registry { processings: HashMap::new(), next_task: 0, told: Ghost(Seq::empty()) }
    }

    /// The number of identities that have a task.
    pub fn len(&self) -> (n: usize)
        ensures
            n == self@.len(),
    {
        self.processings.len()
    }

    /// Whether a task is held for `stream_id`.
    pub fn tracks(&self, stream_id: u64) -> (b: bool)
        ensures
            b == self@.contains_key(stream_id),
    {
        broadcast use vstd::std_specs::hash::group_hash_axioms;

        self.processings.contains_key(&stream_id)
    }

    /// The number of the task that is held for `stream_id`, if there is one.
    pub fn task_of(&self, stream_id: u64) -> (task: Option<u64>)
        ensures
            task == if self@.contains_key(stream_id) {
                Some(self@[stream_id].task)
            } else {
                None::<u64>
            },
    {
        broadcast use vstd::std_specs::hash::group_hash_axioms;

        match self.processings.get(&stream_id) {
            Some(entry) => Some(entry.task),
            None => None,
        }
    }

    /// Draws the number of a new task: the counter's value, which then goes
    /// up by one and wraps at the end of `u64`.
    pub fn draw_task(&mut self) -> (task: u64)
        ensures
            task == old(self).next_task(),
            final(self).next_task() == nth_identity(old(self).next_task(), 1),
            final(self)@ == old(self)@,
            final(self).told() == old(self).told(),
    {
        let task = self.next_task;
        self.next_task = self.next_task.wrapping_add(1);
        task
    }

    /// Takes the entry of `stream_id` out of the registry, if there is one,
    /// and hands it out. The task is not told to abort.
    pub fn evict(&mut self, stream_id: u64) -> (evicted: Option<Entry>)
        ensures
            final(self)@ == old(self)@.remove(stream_id),
            final(self).told() == old(self).told(),
            final(self).next_task() == old(self).next_task(),
            evicted == if old(self)@.contains_key(stream_id) {
                Some(old(self)@[stream_id])
            } else {
                None::<Entry>
            },
    {
        broadcast use vstd::std_specs::hash::group_hash_axioms;

        self.processings.remove(&stream_id)
    }

    /// Cancels what runs on behalf of `stream_id`: the task held for it, if
    /// any, is taken out of the registry and told to abort. The result says
    /// whether there was one. The other identities keep their tasks.
    pub fn cancel(&mut self, stream_id: u64) -> (signalled: bool)
        ensures
            final(self)@ == old(self)@.remove(stream_id),
            final(self).told() == told_after_cancel(old(self).told(), old(self)@, stream_id),
            final(self).next_task() == old(self).next_task(),
            signalled == old(self)@.contains_key(stream_id),
    {
        match self.evict(stream_id) {
            Some(entry) => {
                signal_abort(&entry.handle);
                proof {
                    self.told@ = self.told@.push(entry.handle);
                }
                true
            },
            None => false,
        }
    }

    /// Registers the task that was made for a call under `stream_id`, with
    /// its number and its handle. A task that could not be spawned is told to
    /// abort and not registered: it will never run. Under the untracked
    /// identity nothing is registered; under any other the task takes the
    /// place of the one held before.
    pub fn register(&mut self, stream_id: u64, task: u64, handle: AbortHandle, spawned: bool)
        ensures
            final(self)@ == registered(old(self)@, stream_id, task, handle, spawned),
            final(self).told() == if spawned {
                old(self).told()
            } else {
                old(self).told().push(handle)
            },
            final(self).next_task() == old(self).next_task(),
    {
        broadcast use vstd::std_specs::hash::group_hash_axioms;

        if !spawned {
            signal_abort(&handle);
            proof {
                self.told@ = self.told@.push(handle);
            }
        } else if stream_id != UNTRACKED {
            self.processings.insert(stream_id, Entry { task, handle });
        }
    }

    /// Takes note that the task `task`, which ran under `stream_id`, has come
    /// to its end, by returning or by panicking. Where the identity still
    /// holds that task, its entry is taken out of the registry; where it
    /// holds nothing, or the task of a later request, the registry stays as it
    /// is. No task is told to abort. The result says whether an entry was
    /// taken out.
    pub fn finish(&mut self, stream_id: u64, task: u64) -> (removed: bool)
        ensures
            final(self)@ == finished(old(self)@, stream_id, task),
            final(self).told() == old(self).told(),
            final(self).next_task() == old(self).next_task(),
            removed == (old(self)@.contains_key(stream_id) && old(self)@[stream_id].task == task),
    {
        broadcast use vstd::std_specs::hash::group_hash_axioms;

        let held = match self.processings.get(&stream_id) {
            Some(entry) => entry.task == task,
            None => false,
        };
        if held {
            self.processings.remove(&stream_id);
        }
        held
    }
}

} // verus!
