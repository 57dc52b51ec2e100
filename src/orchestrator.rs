//! Decisions of the main loop: when an iteration is due, and what to do once
//! its three steps have reported.
use vstd::prelude::*;

use crate::retry::{budget_after, escalates, Decision, IterationOutcome, RetryBudget, GOOD_TRIES};

verus! {

/// Least time between the starts of two iterations, in milliseconds.
pub const PERIOD_MS: i64 = 1000;

/// Whether an iteration is due at `now`, the previous one having run at `last`.
pub open spec fn spec_is_due(last: i64, now: i64) -> bool {
    now - last >= PERIOD_MS
}

/// State of the main loop between iterations.
pub struct Orchestrator {
    last: i64,
    budget: RetryBudget,
}

impl Orchestrator {
    /// Clock reading at the start of the previous iteration (zero before the first).
    pub closed spec fn last_ms(&self) -> i64 {
        self.last
    }

    /// Tries left before escalation.
    pub closed spec fn budget(&self) -> nat {
        self.budget@
    }

    /// A loop that has run no iteration yet, with a full budget.
    pub fn new() -> (r: Orchestrator)
        ensures
            r.last_ms() == 0,
            r.budget() == GOOD_TRIES as nat,
    {
        Orchestrator { last: 0, budget: RetryBudget::new() }
    }

    /// Whether at least `PERIOD_MS` have passed since the previous iteration.
    pub fn is_due(&self, now: i64) -> (r: bool)
        ensures
            r == spec_is_due(self.last_ms(), now),
    {
        (now as i128) - (self.last as i128) >= PERIOD_MS as i128
    }

    /// Tries left before escalation.
    pub fn tries_left(&self) -> (r: u32)
        ensures
            r as nat == self.budget(),
            r <= GOOD_TRIES,
    {
        self.budget.tries()
    }

    /// Records an iteration that started at `now`: the next one is due
    /// `PERIOD_MS` later, and its outcome is folded into the budget.
    pub fn finish_iteration(&mut self, now: i64, outcome: IterationOutcome) -> (d: Decision)
        ensures
            final(self).last_ms() == now,
            final(self).budget() == budget_after(old(self).budget(), outcome.spec_succeeded()),
            (d == Decision::Escalate) == escalates(old(self).budget(), outcome.spec_succeeded()),
    {
        self.last = now;
        self.budget.record(outcome)
    }
}

} // verus!
