//! The readiness check, counted: how many calls are past it at a time where
//! the service behind it limits how many it takes.
//!
//! The loop lets a call through only once the service's check for readiness
//! has resolved (`PendingCall::release`), one check for each call. A service
//! that limits itself to `limit` calls at a time reports that it is ready
//! only while fewer than `limit` calls are inside. Together these keep the
//! calls that went through with the service's consent within the limit.

use vstd::prelude::*;

verus! {

/// A service that limits itself: its limit, and the calls that are past its
/// readiness check and have not come to their end.
pub struct Limited {
    pub limit: nat,
    pub inside: nat,
}

/// What can happen at the readiness check.
pub enum Step {
    /// A call is let through, after the service reported that it is ready.
    Release,
    /// A call that is inside comes to its end.
    End,
}

impl Limited {
    /// A service that takes `limit` calls at a time, with no call inside.
    pub open spec fn new(limit: nat) -> Limited {
        Limited { limit, inside: 0 }
    }

    /// Whether the service reports that it is ready: while a place is free.
    pub open spec fn ready(self) -> bool {
        self.inside < self.limit
    }

    /// Whether `step` can happen: a call is let through only while the
    /// service is ready, and a call can end only while one is inside.
    pub open spec fn allows(self, step: Step) -> bool {
        match step {
            Step::Release => self.ready(),
            Step::End => self.inside > 0,
        }
    }

    /// The service after `step`.
    pub open spec fn after(self, step: Step) -> Limited {
        match step {
            Step::Release => Limited { inside: self.inside + 1, ..self },
            Step::End => Limited { inside: (self.inside - 1) as nat, ..self },
        }
    }

    /// The service after `steps`, one after another; none where one of them
    /// cannot happen.
    pub open spec fn run(self, steps: Seq<Step>) -> Option<Limited>
        decreases steps.len(),
    {
        if steps.len() == 0 {
            Some(self)
        } else {
            match self.run(steps.drop_last()) {
                Some(now) => if now.allows(steps.last()) {
                    Some(now.after(steps.last()))
                } else {
                    None
                },
                None => None,
            }
        }
    }
}

/// The limit is never overrun: however many calls are asked for and in
/// whatever order calls are let through and end, never more than `limit`
/// calls are past the readiness check at a time; a call beyond the limit is
/// let through only after one that was inside has come to its end.
pub proof fn lemma_limit_is_never_overrun(limit: nat, steps: Seq<Step>)
    ensures
        Limited::new(limit).run(steps) matches Some(now) ==> now.limit == limit && now.inside
            <= limit,
        Limited::new(limit).run(steps) matches Some(now) ==> (now.allows(Step::Release)
            <==> now.inside < limit),
    decreases steps.len(),
{
    if steps.len() > 0 {
        lemma_limit_is_never_overrun(limit, steps.drop_last());
    }
}

/// What can happen up to a point can happen up to every earlier point: the
/// bound holds at all times, not only at the end.
pub proof fn lemma_limit_holds_at_all_times(limit: nat, steps: Seq<Step>, n: int)
    requires
        0 <= n <= steps.len(),
        Limited::new(limit).run(steps) is Some,
    ensures
        Limited::new(limit).run(steps.take(n)) matches Some(now) && now.inside <= limit,
    decreases steps.len(),
{
    if n == steps.len() {
        assert(steps.take(n) =~= steps);
        lemma_limit_is_never_overrun(limit, steps);
    } else {
        assert(steps.drop_last().take(n) =~= steps.take(n));
        lemma_limit_holds_at_all_times(limit, steps.drop_last(), n);
    }
}

} // verus!
