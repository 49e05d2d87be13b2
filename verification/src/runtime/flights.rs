//! The tasks in flight, as the server loop sees them: what the registry
//! holds, numbers and has told to abort, and beside it the tasks that were
//! spawned and have neither come to their end nor been told to abort. The
//! first three are the state of `Registry`; the tasks are what the registry
//! is kept for. What is proved here is that the way the loop handles its
//! items keeps at most one such task for each tracked identity, that the
//! registry holds a task exactly as long as it is in flight, and that
//! cancelling one identity leaves the tasks of the others alone.
//!
//! To be told to abort is not to have stopped: a task stops at its next
//! suspension point. A task counts as in flight here until it is told, or
//! until the loop learns of its end.

use vstd::prelude::*;
use futures::future::AbortHandle;
use crate::runtime::ids::{UNTRACKED, nth_identity};
use crate::runtime::registry::{Entry, finished, registered, told_after_cancel};

verus! {

/// A task in flight: the identity under which it runs, and its handle.
pub struct Flight {
    pub stream_id: u64,
    pub handle: AbortHandle,
}

/// The registry, its counter, its record, and the tasks in flight, each
/// under its number.
pub struct Flights {
    pub registry: Map<u64, Entry>,
    pub next_task: u64,
    pub told: Seq<AbortHandle>,
    pub running: Map<u64, Flight>,
}

impl Flights {
    /// Nothing registered, nothing numbered, nothing told, nothing in
    /// flight: the state in which the loop starts.
    pub open spec fn start() -> Flights {
        Flights {
            registry: Map::empty(),
            next_task: 0,
            told: Seq::empty(),
            running: Map::empty(),
        }
    }

    /// Whether `handle` is new to this state: the handle of no task in
    /// flight, and never told to abort.
    pub open spec fn is_new(self, handle: AbortHandle) -> bool {
        &&& !self.told.contains(handle)
        &&& forall|task: u64| #[trigger]
            self.running.contains_key(task) ==> self.running[task].handle != handle
    }

    /// The state after the task registered under `stream_id`, if there is
    /// one, was taken out of the registry and told to abort: what
    /// `Registry::cancel` does, and `dispatch` for every item.
    pub open spec fn cancelled(self, stream_id: u64) -> Flights {
        Flights {
            registry: self.registry.remove(stream_id),
            told: told_after_cancel(self.told, self.registry, stream_id),
            running: if self.registry.contains_key(stream_id) {
                self.running.remove(self.registry[stream_id].task)
            } else {
                self.running
            },
            ..self
        }
    }

    /// The state after a number was drawn for a task: what
    /// `Registry::draw_task` does.
    pub open spec fn drawn(self) -> Flights {
        Flights { next_task: nth_identity(self.next_task, 1), ..self }
    }

    /// The state after the task `task` was made for a call under `stream_id`
    /// and registered: what `Registry::register` does. The task is in flight
    /// where it was spawned, and told to abort where it could not be.
    pub open spec fn registered(
        self,
        stream_id: u64,
        task: u64,
        handle: AbortHandle,
        spawned: bool,
    ) -> Flights {
        Flights {
            registry: registered(self.registry, stream_id, task, handle, spawned),
            told: if spawned {
                self.told
            } else {
                self.told.push(handle)
            },
            running: if spawned {
                self.running.insert(task, Flight { stream_id, handle })
            } else {
                self.running
            },
            ..self
        }
    }

    /// The state after the loop learned that the task `task`, which ran under
    /// `stream_id`, came to its end, by returning or by panicking: what
    /// `Registry::finish` does. The task is in flight no longer, and its
    /// entry, if the identity still holds it, is out of the registry.
    pub open spec fn finished(self, stream_id: u64, task: u64) -> Flights {
        Flights {
            registry: finished(self.registry, stream_id, task),
            running: self.running.remove(task),
            ..self
        }
    }

    /// The state after a request under `stream_id` was handled whole: the
    /// task registered under the identity was cancelled, a number was drawn,
    /// and the task of the request was spawned and registered under it.
    pub open spec fn requested(self, stream_id: u64, handle: AbortHandle) -> Flights {
        self.cancelled(stream_id).drawn().registered(stream_id, self.next_task, handle, true)
    }

    /// What holds of every state that the loop reaches: nothing is registered
    /// under the untracked identity; every task in flight was numbered before
    /// and never told to abort; no two tasks in flight share a handle; a task
    /// that the registry holds is in flight,
    /// under the identity and with the handle that the registry holds it
    /// with; and a task in flight under a tracked identity is the one that
    /// the registry holds for that identity.
    pub open spec fn consistent(self) -> bool {
        &&& !self.registry.contains_key(UNTRACKED)
        &&& forall|task: u64| #[trigger]
            self.running.contains_key(task) ==> {
                &&& task < self.next_task
                &&& !self.told.contains(self.running[task].handle)
            }
        &&& forall|first: u64, second: u64|
            #![trigger self.running.contains_key(first), self.running.contains_key(second)]
            self.running.contains_key(first) && self.running.contains_key(second)
                && self.running[first].handle == self.running[second].handle ==> first == second
        &&& forall|id: u64| #[trigger]
            self.registry.contains_key(id) ==> {
                &&& self.running.contains_key(self.registry[id].task)
                &&& self.running[self.registry[id].task] == Flight {
                    stream_id: id,
                    handle: self.registry[id].handle,
                }
            }
        &&& forall|task: u64| #[trigger]
            self.running.contains_key(task) && self.running[task].stream_id != UNTRACKED ==> {
                &&& self.registry.contains_key(self.running[task].stream_id)
                &&& self.registry[self.running[task].stream_id].task == task
            }
    }
}

/// The loop starts in a consistent state.
pub proof fn lemma_start_is_consistent()
    ensures
        Flights::start().consistent(),
{
}

/// Cancelling an identity keeps the state consistent, and leaves nothing
/// registered under the identity.
pub proof fn lemma_cancelled_is_consistent(f: Flights, stream_id: u64)
    requires
        f.consistent(),
    ensures
        f.cancelled(stream_id).consistent(),
        !f.cancelled(stream_id).registry.contains_key(stream_id),
{
}

/// Handling a request whole keeps the state consistent, whatever was
/// registered under its identity before, as long as the counter of tasks has
/// not come to the end of `u64`.
pub proof fn lemma_requested_is_consistent(f: Flights, stream_id: u64, handle: AbortHandle)
    requires
        f.consistent(),
        f.is_new(handle),
        f.next_task < u64::MAX,
    ensures
        f.requested(stream_id, handle).consistent(),
        f.requested(stream_id, handle).running.contains_key(f.next_task),
        f.requested(stream_id, handle).running[f.next_task] == (Flight { stream_id, handle }),
{
    lemma_cancelled_is_consistent(f, stream_id);
    vstd::arithmetic::div_mod::lemma_small_mod(
        (f.next_task + 1) as nat,
        crate::runtime::ids::modulus() as nat,
    );
}

/// A task that could not be spawned leaves the state as consistent as it
/// was: it is told to abort and neither registered nor in flight.
pub proof fn lemma_unspawned_is_consistent(
    f: Flights,
    stream_id: u64,
    task: u64,
    handle: AbortHandle,
)
    requires
        f.consistent(),
        f.is_new(handle),
    ensures
        f.registered(stream_id, task, handle, false).consistent(),
        f.registered(stream_id, task, handle, false).registry == f.registry,
        f.registered(stream_id, task, handle, false).running == f.running,
{
}

/// The end of a task keeps the state consistent, where the loop is told the
/// identity under which the task ran.
pub proof fn lemma_finished_is_consistent(f: Flights, stream_id: u64, task: u64)
    requires
        f.consistent(),
        f.running.contains_key(task) ==> f.running[task].stream_id == stream_id,
    ensures
        f.finished(stream_id, task).consistent(),
{
}

/// The registry holds a task exactly as long as it is in flight: in a
/// consistent state every identity in the registry has its task in flight,
/// and when a task in flight under a tracked identity comes to its end, the
/// entry of the identity is taken out of the registry.
pub proof fn lemma_registry_holds_what_is_in_flight(f: Flights, stream_id: u64, task: u64)
    requires
        f.consistent(),
    ensures
        forall|id: u64| #[trigger]
            f.registry.contains_key(id) ==> f.running.contains_key(f.registry[id].task),
        f.running.contains_key(task) && f.running[task].stream_id == stream_id ==> {
            &&& !f.finished(stream_id, task).registry.contains_key(stream_id)
            &&& !f.finished(stream_id, task).running.contains_key(task)
        },
{
}

/// The end of a task that was superseded or cancelled touches nothing: where
/// the task is in flight no longer, the registry stays as it is, and the task
/// that took its place stays registered and in flight.
pub proof fn lemma_late_end_touches_nothing(f: Flights, stream_id: u64, task: u64)
    requires
        f.consistent(),
        !f.running.contains_key(task),
    ensures
        f.finished(stream_id, task) == f,
{
    assert(f.running.remove(task) =~= f.running);
}

/// At most one in flight for an identity: in a consistent state, two tasks in
/// flight under the same tracked identity are one task.
pub proof fn lemma_at_most_one_in_flight(f: Flights, first: u64, second: u64)
    requires
        f.consistent(),
        f.running.contains_key(first),
        f.running.contains_key(second),
        f.running[first].stream_id == f.running[second].stream_id,
        f.running[first].stream_id != UNTRACKED,
    ensures
        first == second,
{
}

/// The newest request wins: after a request under a tracked identity was
/// handled, the only task in flight under that identity is the one spawned
/// for it, and the task that was registered under the identity before has
/// been told to abort.
pub proof fn lemma_newest_request_wins(f: Flights, stream_id: u64, handle: AbortHandle, other: u64)
    requires
        f.consistent(),
        f.is_new(handle),
        f.next_task < u64::MAX,
        stream_id != UNTRACKED,
        f.requested(stream_id, handle).running.contains_key(other),
        f.requested(stream_id, handle).running[other].stream_id == stream_id,
    ensures
        other == f.next_task,
        f.registry.contains_key(stream_id) ==> f.requested(stream_id, handle).told.last()
            == f.registry[stream_id].handle,
{
    lemma_requested_is_consistent(f, stream_id, handle);
}

/// Cancelling one identity does not touch the others: the task registered
/// for the identity has been told to abort and is in flight no longer, every
/// other identity keeps its registration, and every task in flight under
/// another identity, tracked or not, stays in flight.
pub proof fn lemma_cancel_spares_the_others(f: Flights, stream_id: u64)
    requires
        f.consistent(),
    ensures
        f.registry.contains_key(stream_id) ==> {
            &&& f.cancelled(stream_id).told.last() == f.registry[stream_id].handle
            &&& !f.cancelled(stream_id).running.contains_key(f.registry[stream_id].task)
        },
        forall|id: u64|
            id != stream_id ==> {
                &&& f.cancelled(stream_id).registry.contains_key(id) == #[trigger]
                    f.registry.contains_key(id)
                &&& f.registry.contains_key(id) ==> f.cancelled(stream_id).registry[id]
                    == f.registry[id]
            },
        forall|task: u64| #[trigger]
            f.running.contains_key(task) && f.running[task].stream_id != stream_id ==> {
                &&& f.cancelled(stream_id).running.contains_key(task)
                &&& f.cancelled(stream_id).running[task] == f.running[task]
            },
{
}

/// Calls under the untracked identity are never cancelled by a later request
/// of the same handle: a request under it takes no task out of flight, tells
/// none to abort and registers nothing.
pub proof fn lemma_untracked_calls_pile_up(f: Flights, handle: AbortHandle, earlier: u64)
    requires
        f.consistent(),
        f.is_new(handle),
        f.next_task < u64::MAX,
        f.running.contains_key(earlier),
    ensures
        f.requested(UNTRACKED, handle).running.contains_key(earlier),
        f.requested(UNTRACKED, handle).running.contains_key(f.next_task),
        f.requested(UNTRACKED, handle).registry == f.registry,
        f.requested(UNTRACKED, handle).told == f.told,
{
}

/// A task that fails does not keep the loop from serving: after a task came
/// to its end, by returning or by panicking, the state is consistent, nothing
/// is left of the task, and a request that follows, under the same identity or
/// another, puts its task in flight.
pub proof fn lemma_loop_serves_after_a_failure(
    f: Flights,
    failed_under: u64,
    failed: u64,
    stream_id: u64,
    handle: AbortHandle,
)
    requires
        f.consistent(),
        f.is_new(handle),
        f.next_task < u64::MAX,
        f.running.contains_key(failed),
        f.running[failed].stream_id == failed_under,
    ensures
        f.finished(failed_under, failed).consistent(),
        !f.finished(failed_under, failed).running.contains_key(failed),
        !f.finished(failed_under, failed).registry.contains_key(failed_under),
        f.finished(failed_under, failed).requested(stream_id, handle).consistent(),
        f.finished(failed_under, failed).requested(stream_id, handle).running.contains_key(
            f.next_task,
        ),
{
    lemma_finished_is_consistent(f, failed_under, failed);
    let after = f.finished(failed_under, failed);
    lemma_requested_is_consistent(after, stream_id, handle);
}

} // verus!
