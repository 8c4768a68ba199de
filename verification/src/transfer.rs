//! Requests for asset transfers, and the order in which an operation issues
//! them.
//!
//! The library never moves assets itself. An operation yields the transfers
//! it wants; the host performs them one at a time through a `TransferRun` and
//! reports each outcome back. A run issues the transfers in order, never
//! repeats one, and stops at the first failure, which it hands back as it
//! came. Undoing the transfers that went through before a failure is the
//! host's part.

use crate::account::AccountId;
use vstd::prelude::*;

verus! {

/// A request to move `amount` of an asset from one account to another,
/// authorized by `authority`. The transfer either happens in full or fails.
#[derive(Clone, Copy, Debug, PartialEq, Eq)]
pub struct TransferRequest {
    pub from: AccountId,
    pub to: AccountId,
    pub authority: AccountId,
    pub amount: u64,
}

/// How far a run has come: the first `settled` transfers of `plan` went
/// through, and if `aborted`, the one after them failed.
pub struct RunState {
    pub plan: Seq<TransferRequest>,
    pub settled: nat,
    pub aborted: bool,
}

impl RunState {
    /// The state of a run of `plan` before its first transfer.
    pub open spec fn start(plan: Seq<TransferRequest>) -> RunState {
        RunState { plan, settled: 0, aborted: false }
    }

    /// The transfer to perform next, if the run is not over.
    pub open spec fn pending(self) -> Option<TransferRequest> {
        if !self.aborted && self.settled < self.plan.len() {
            Some(self.plan[self.settled as int])
        } else {
            None
        }
    }

    /// Whether every transfer of the plan went through.
    pub open spec fn completed(self) -> bool {
        !self.aborted && self.settled == self.plan.len()
    }

    /// The state once the pending transfer has `succeeded` or failed. A run
    /// that is over stays as it is.
    pub open spec fn after(self, succeeded: bool) -> RunState {
        if self.pending() is None {
            self
        } else if succeeded {
            RunState { settled: self.settled + 1, ..self }
        } else {
            RunState { aborted: true, ..self }
        }
    }

    /// The state once the outcomes of `outcomes` have been reported in turn.
    pub open spec fn after_all(self, outcomes: Seq<bool>) -> RunState
        decreases outcomes.len(),
    {
        if outcomes.len() == 0 {
            self
        } else {
            self.after(outcomes[0]).after_all(outcomes.drop_first())
        }
    }

    /// A failure ends the run: nothing is pending after it, the run does not
    /// count as completed, and no later report changes that.
    pub proof fn lemma_failure_ends_run(self, later: Seq<bool>)
        requires
            self.pending() is Some,
        ensures
            self.after(false).after_all(later) == self.after(false),
            self.after(false).pending() is None,
            !self.after(false).completed(),
            self.after(false).settled == self.settled,
        decreases later.len(),
    {
        if later.len() > 0 {
            self.lemma_failure_ends_run(later.drop_first());
        }
    }

    /// A run completes exactly when every transfer of its plan is reported
    /// to have succeeded; until then the transfers come up in plan order.
    pub proof fn lemma_run_follows_plan(plan: Seq<TransferRequest>, outcomes: Seq<bool>)
        requires
            outcomes.len() <= plan.len(),
            forall|i: int| 0 <= i < outcomes.len() ==> outcomes[i],
        ensures
            RunState::start(plan).after_all(outcomes) == (RunState {
                plan,
                settled: outcomes.len(),
                aborted: false,
            }),
            RunState::start(plan).after_all(outcomes).completed() <==> outcomes.len()
                == plan.len(),
            outcomes.len() < plan.len() ==> RunState::start(plan).after_all(outcomes).pending()
                == Some(plan[outcomes.len() as int]),
    {
        let first = RunState::start(plan);
        first.lemma_successes_advance(outcomes);
    }

    proof fn lemma_successes_advance(self, outcomes: Seq<bool>)
        requires
            !self.aborted,
            self.settled + outcomes.len() <= self.plan.len(),
            forall|i: int| 0 <= i < outcomes.len() ==> outcomes[i],
        ensures
            self.after_all(outcomes) == (RunState {
                settled: self.settled + outcomes.len(),
                ..self
            }),
        decreases outcomes.len(),
    {
        if outcomes.len() > 0 {
            let rest = outcomes.drop_first();
            assert(outcomes[0]);
            assert forall|i: int| 0 <= i < rest.len() implies rest[i] by {
                assert(rest[i] == outcomes[i + 1]);
            }
            self.after(true).lemma_successes_advance(rest);
        }
    }
}

/// The transfers of one operation on their way through the host.
pub struct TransferRun {
    plan: Vec<TransferRequest>,
    settled: usize,
    aborted: bool,
}

impl View for TransferRun {
    type V = RunState;

    closed spec fn view(&self) -> RunState {
        RunState { plan: self.plan@, settled: self.settled as nat, aborted: self.aborted }
    }
}

impl TransferRun {
    #[verifier::type_invariant]
    spec fn within_plan(&self) -> bool {
        self.settled <= self.plan.len()
    }

    /// Starts a run of `plan`.
    pub fn new(plan: Vec<TransferRequest>) -> (run: TransferRun)
        ensures
            run@ == RunState::start(plan@),
    {
        TransferRun { plan, settled: 0, aborted: false }
    }

    /// The transfer the host is to perform next; `None` once the run is over.
    pub fn next_transfer(&self) -> (next: Option<TransferRequest>)
        ensures
            next == self@.pending(),
    {
        if !self.aborted && self.settled < self.plan.len() {
            Some(self.plan[self.settled])
        } else {
            None
        }
    }

    /// Whether every transfer of the plan went through.
    pub fn is_complete(&self) -> (done: bool)
        ensures
            done == self@.completed(),
    {
        !self.aborted && self.settled == self.plan.len()
    }

    /// Takes the outcome of the pending transfer and hands it back as it
    /// came. A success moves the run on to the next transfer; a failure ends
    /// the run.
    pub fn record<E>(&mut self, outcome: Result<(), E>) -> (result: Result<(), E>)
        ensures
            result == outcome,
            final(self)@ == old(self)@.after(outcome is Ok),
    {
        proof {
            use_type_invariant(&*self);
        }
        if !self.aborted && self.settled < self.plan.len() {
            if outcome.is_ok() {
                self.settled = self.settled + 1;
            } else {
                self.aborted = true;
            }
        }
        outcome
    }
}

} // verus!
