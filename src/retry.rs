//! Failure budget of the main loop and the escalation it triggers.
use vstd::prelude::*;

verus! {

/// Budget granted after every fully successful iteration.
pub const GOOD_TRIES: u32 = 5;

/// Delay between the best-effort recovery steps and the hardware reset.
pub const RESET_DELAY_MS: u32 = 3000;

/// Budget after one iteration that started with budget `prev`.
pub open spec fn budget_after(prev: nat, succeeded: bool) -> nat {
    if succeeded {
        GOOD_TRIES as nat
    } else if prev == 0 {
        0
    } else {
        (prev - 1) as nat
    }
}

/// An iteration escalates exactly when it takes the last try away.
pub open spec fn escalates(prev: nat, succeeded: bool) -> bool {
    !succeeded && prev == 1
}

/// Budget after running iterations with the outcomes `oks` from `start`.
pub open spec fn budget_after_all(start: nat, oks: Seq<bool>) -> nat
    decreases oks.len(),
{
    if oks.len() == 0 {
        start
    } else {
        budget_after(budget_after_all(start, oks.drop_last()), oks.last())
    }
}

/// Whether the `i`-th iteration of the run escalates.
pub open spec fn escalates_at(start: nat, oks: Seq<bool>, i: int) -> bool {
    escalates(budget_after_all(start, oks.take(i)), oks[i])
}

/// A run of failures keeps an exhausted budget exhausted.
proof fn lemma_stays_exhausted(start: nat, oks: Seq<bool>, i: int, m: int)
    requires
        0 <= i < m <= oks.len(),
        budget_after_all(start, oks.take(i + 1)) == 0,
        forall|k: int| i < k < m ==> !oks[k],
    ensures
        budget_after_all(start, oks.take(m)) == 0,
    decreases m - i,
{
    if m > i + 1 {
        lemma_stays_exhausted(start, oks, i, m - 1);
        assert(oks.take(m).drop_last() =~= oks.take(m - 1));
    }
}

/// The budget always reads `GOOD_TRIES` after a success, and otherwise one
/// less than before, but never below zero; an iteration escalates exactly when
/// its failure brings a positive budget down to zero.
pub proof fn lemma_budget_step(start: nat, oks: Seq<bool>, i: int)
    requires
        0 <= i < oks.len(),
    ensures
        budget_after_all(start, oks.take(i + 1)) == (if oks[i] {
            GOOD_TRIES as nat
        } else if budget_after_all(start, oks.take(i)) == 0 {
            0
        } else {
            (budget_after_all(start, oks.take(i)) - 1) as nat
        }),
        escalates_at(start, oks, i) == (budget_after_all(start, oks.take(i)) > 0
            && budget_after_all(start, oks.take(i + 1)) == 0),
{
    assert(oks.take(i + 1).drop_last() =~= oks.take(i));
}

/// The escalation fires at most once per exhaustion: between any two
/// iterations that escalate lies a successful one that restored the budget.
pub proof fn lemma_escalates_once_per_exhaustion(start: nat, oks: Seq<bool>, i: int, j: int)
    requires
        0 <= i < j < oks.len(),
        escalates_at(start, oks, i),
        escalates_at(start, oks, j),
    ensures
        exists|k: int| i < k < j && oks[k],
{
    assert(oks.take(i + 1).drop_last() =~= oks.take(i));
    if forall|k: int| i < k < j ==> !oks[k] {
        lemma_stays_exhausted(start, oks, i, j);
    }
}

/// What the three steps of one main-loop iteration reported.
#[derive(Clone, Copy, Debug, PartialEq, Eq, Structural)]
pub struct IterationOutcome {
    pub location_ok: bool,
    pub drain_ok: bool,
    pub sync_ok: bool,
}

impl IterationOutcome {
    pub open spec fn spec_succeeded(self) -> bool {
        self.location_ok && self.drain_ok && self.sync_ok
    }

    /// An iteration succeeds only when all three steps did.
    pub fn succeeded(&self) -> (r: bool)
        ensures
            r == self.spec_succeeded(),
    {
        self.location_ok && self.drain_ok && self.sync_ok
    }
}

/// What the main loop does after recording an iteration.
#[derive(Clone, Copy, Debug, PartialEq, Eq, Structural)]
pub enum Decision {
    /// Keep looping.
    Continue,
    /// Run the escalation sequence, which ends in a reset.
    Escalate,
}

/// Counter of tries left before the device gives up; never above
/// `GOOD_TRIES`.
pub struct RetryBudget {
    tries: u32,
}

impl View for RetryBudget {
    type V = nat;

    closed spec fn view(&self) -> nat {
        self.tries as nat
    }
}

impl RetryBudget {
    #[verifier::type_invariant]
    closed spec fn inv(self) -> bool {
        self.tries <= GOOD_TRIES
    }

    /// A fresh budget of `GOOD_TRIES`.
    pub fn new() -> (r: RetryBudget)
        ensures
            r@ == GOOD_TRIES as nat,
    {
        RetryBudget { tries: GOOD_TRIES }
    }

    /// Tries left.
    pub fn tries(&self) -> (r: u32)
        ensures
            r as nat == self@,
            r <= GOOD_TRIES,
    {
        proof {
            use_type_invariant(self);
        }
        self.tries
    }

    /// Folds one iteration into the budget: a success restores it, a failure
    /// takes one try away (never below zero). Returns `Escalate` exactly when
    /// this failure used up the last try.
    pub fn record(&mut self, outcome: IterationOutcome) -> (d: Decision)
        ensures
            final(self)@ == budget_after(old(self)@, outcome.spec_succeeded()),
            final(self)@ <= GOOD_TRIES,
            (d == Decision::Escalate) == escalates(old(self)@, outcome.spec_succeeded()),
    {
        proof {
            use_type_invariant(&*self);
        }
        if outcome.succeeded() {
            self.tries = GOOD_TRIES;
            Decision::Continue
        } else if self.tries == 0 {
            Decision::Continue
        } else {
            self.tries = self.tries - 1;
            if self.tries == 0 {
                Decision::Escalate
            } else {
                Decision::Continue
            }
        }
    }
}

/// One step of the recovery sequence that precedes the reset.
#[derive(Clone, Copy, Debug, PartialEq, Eq, Structural)]
pub enum EscalationStep {
    /// Best-effort diagnostic log to the relay hub; its failure is ignored.
    SendLog,
    /// Best-effort restart of the modem; its failure is ignored.
    RestartModem,
    /// Unconditional pause, in milliseconds.
    Wait { ms: u32 },
    /// Unconditional hardware reset; it never returns.
    Reset,
}

/// The steps of an escalation, in order.
pub open spec fn spec_escalation_plan() -> Seq<EscalationStep> {
    seq![
        EscalationStep::SendLog,
        EscalationStep::RestartModem,
        EscalationStep::Wait { ms: RESET_DELAY_MS },
        EscalationStep::Reset,
    ]
}

/// The fixed escalation sequence: log, modem restart, delay, reset.
pub fn escalation_plan() -> (r: Vec<EscalationStep>)
    ensures
        r@ == spec_escalation_plan(),
{
    let r = vec![
        EscalationStep::SendLog,
        EscalationStep::RestartModem,
        EscalationStep::Wait { ms: RESET_DELAY_MS },
        EscalationStep::Reset,
    ];
    assert(r@ =~= spec_escalation_plan());
    r
}

} // verus!
