//! The adapter between ledger and policy: provenance filter, readiness monitor, consensus
//! engine and migration controller behind one owner.
//!
//! The adapter decides; it performs no ledger call. Its caller fetches
//! histories and activity counts, submits the orders it is handed, and
//! reports back what the ledger answered.

use vstd::prelude::*;
use crate::consensus::{
    certain_votes, ratio_exceeds, ConsensusEngine, Fraction, DEFAULT_BATCH,
};
use crate::migration::{migrated_after, migration_outcome, MigrationController, MigrationOutcome};
use crate::provenance::{
    cache_after, ProvenanceFilter, ProvenanceVerdict, TransactionRecord, DEFAULT_WINDOW,
};
use crate::readiness::{readiness_after, ReadinessMonitor, DEFAULT_ACTIVITY_THRESHOLD};
use crate::transfer::{
    enforce_fixed_value_transfer, plain_decision, TransferDecision, TransferOrder,
};

verus! {

/// What the listener is told.
#[derive(Clone, Debug)]
pub enum ListenerEvent {
    /// A transaction appeared on the stream.
    Transaction { identifier: String, history: Vec<TransactionRecord> },
    /// The ledger answered a submission made for `identifier`.
    Submission { identifier: String, history: Vec<TransactionRecord>, accepted: bool },
    /// The stream ended or its transport failed.
    StreamEnded,
}

/// What the listener does next.
#[derive(Clone, Debug)]
pub enum ListenerAction {
    /// The identifier is tainted: the event is dropped.
    Drop,
    /// The order is to be submitted, and its result reported back.
    Submit(TransferOrder),
    /// The transfer went through and migration was attempted.
    Proceed(MigrationOutcome),
    /// The listener ends; restarting it is up to its supervisor.
    Stop,
}

/// The components of the adapter and its policy.
pub struct StellarPiAdapter {
    pub filter: ProvenanceFilter,
    pub monitor: ReadinessMonitor,
    pub engine: ConsensusEngine,
    pub controller: MigrationController,
    pub batch: usize,
    pub approval: Fraction,
    pub threshold: Fraction,
}

impl StellarPiAdapter {
    /// Every component is well formed.
    pub open spec fn wf(&self) -> bool {
        &&& self.filter.wf()
        &&& self.engine.wf()
        &&& self.controller.wf()
        &&& self.approval.wf()
        &&& self.threshold.wf()
    }

    /// The policy is the one that `other` has.
    pub open spec fn same_policy(&self, other: &Self) -> bool {
        &&& self.filter.window() == other.filter.window()
        &&& self.monitor.threshold() == other.monitor.threshold()
        &&& self.batch == other.batch
        &&& self.approval == other.approval
        &&& self.threshold == other.threshold
    }

    /// The ledger of votes exceeds the threshold.
    pub open spec fn consensus(&self) -> bool {
        self.engine@.len() > 0 && ratio_exceeds(
            self.engine@,
            self.threshold.num(),
            self.threshold.den(),
        )
    }

    /// An attempt on `identifier` gets as far as the vote.
    pub open spec fn votes_on(&self, identifier: Seq<char>) -> bool {
        !self.controller.migrated().contains(identifier) && self.monitor.ready()
    }

    /// What an attempt to migrate `identifier` does to the adapter. An
    /// identifier that has migrated stays so and nothing else happens.
    /// Otherwise readiness is read first; only a ready adapter casts a batch
    /// of votes, with the approval probability of its policy; only with
    /// consensus is the history consulted, and a taint found there is cached.
    pub open spec fn migration_attempt(
        before: Self,
        after: Self,
        identifier: Seq<char>,
        history: Seq<TransactionRecord>,
        outcome: MigrationOutcome,
    ) -> bool {
        let voted = before.votes_on(identifier);
        let consulted = voted && after.consensus();
        let verdict = before.filter.screening(identifier, history);
        &&& after.monitor == before.monitor
        &&& !voted ==> after.engine@ == before.engine@
        &&& voted ==> {
            &&& after.engine@.len() == before.engine@.len() + before.batch
            &&& after.engine@.take(before.engine@.len() as int) == before.engine@
            &&& certain_votes(before.engine@, after.engine@, before.approval)
        }
        &&& !consulted ==> after.filter.rejected() == before.filter.rejected()
        &&& consulted ==> after.filter.rejected() == cache_after(
            before.filter.rejected(),
            identifier,
            verdict,
        )
        &&& outcome == migration_outcome(
            before.controller.migrated().contains(identifier),
            before.monitor.ready(),
            after.consensus(),
            verdict,
        )
        &&& after.controller.migrated() == migrated_after(
            before.controller.migrated(),
            identifier,
            before.monitor.ready(),
            after.consensus(),
            verdict,
        )
    }

    /// An adapter with the default policy: a window of 50 records, readiness at
    /// 1000 transactions, batches of 10 votes, approval probability and
    /// threshold of three quarters.
    pub fn new() -> (adapter: Self)
        ensures
            adapter.wf(),
            adapter.filter.window() == DEFAULT_WINDOW,
            adapter.filter.rejected() == Set::<Seq<char>>::empty(),
            adapter.monitor.threshold() == DEFAULT_ACTIVITY_THRESHOLD,
            !adapter.monitor.ready(),
            adapter.engine@ == Seq::<u8>::empty(),
            adapter.controller.migrated() == Set::<Seq<char>>::empty(),
            adapter.batch == DEFAULT_BATCH,
            adapter.approval.num() == 3 && adapter.approval.den() == 4,
            adapter.threshold.num() == 3 && adapter.threshold.den() == 4,
    {
        StellarPiAdapter {
            filter: ProvenanceFilter::new(DEFAULT_WINDOW),
            monitor: ReadinessMonitor::new(DEFAULT_ACTIVITY_THRESHOLD),
            engine: ConsensusEngine::new(),
            controller: MigrationController::new(),
            batch: DEFAULT_BATCH,
            approval: Fraction::three_quarters(),
            threshold: Fraction::three_quarters(),
        }
    }

    /// An adapter with a policy of the caller's choice.
    pub fn with_policy(
        window: usize,
        activity_threshold: usize,
        batch: usize,
        approval: Fraction,
        threshold: Fraction,
    ) -> (adapter: Self)
        requires
            approval.wf(),
            threshold.wf(),
        ensures
            adapter.wf(),
            adapter.filter.window() == window,
            adapter.filter.rejected() == Set::<Seq<char>>::empty(),
            adapter.monitor.threshold() == activity_threshold,
            !adapter.monitor.ready(),
            adapter.engine@ == Seq::<u8>::empty(),
            adapter.controller.migrated() == Set::<Seq<char>>::empty(),
            adapter.batch == batch,
            adapter.approval == approval,
            adapter.threshold == threshold,
    {
        StellarPiAdapter {
            filter: ProvenanceFilter::new(window),
            monitor: ReadinessMonitor::new(activity_threshold),
            engine: ConsensusEngine::new(),
            controller: MigrationController::new(),
            batch,
            approval,
            threshold,
        }
    }

    /// Classifies an identifier from its history; true means clean. A taint
    /// is cached.
    pub fn check_coin_history(&mut self, identifier: &str, history: &Vec<TransactionRecord>) -> (clean:
        bool)
        requires
            old(self).wf(),
        ensures
            final(self).wf(),
            final(self).same_policy(old(self)),
            final(self).monitor == old(self).monitor,
            final(self).engine@ == old(self).engine@,
            final(self).controller.migrated() == old(self).controller.migrated(),
            clean == (old(self).filter.screening(identifier@, history@)
                == ProvenanceVerdict::Clean),
            final(self).filter.rejected() == cache_after(
                old(self).filter.rejected(),
                identifier@,
                old(self).filter.screening(identifier@, history@),
            ),
    {
        self.filter.screen(identifier, history) == ProvenanceVerdict::Clean
    }

    /// Orders a transfer of the stable value to the identifier's own
    /// account, unless the identifier is tainted.
    pub fn enforce_stable_value(&mut self, identifier: &str, history: &Vec<TransactionRecord>) -> (decision:
        TransferDecision)
        requires
            old(self).wf(),
        ensures
            final(self).wf(),
            final(self).same_policy(old(self)),
            final(self).monitor == old(self).monitor,
            final(self).engine@ == old(self).engine@,
            final(self).controller.migrated() == old(self).controller.migrated(),
            final(self).filter.rejected() == cache_after(
                old(self).filter.rejected(),
                identifier@,
                old(self).filter.screening(identifier@, history@),
            ),
            plain_decision(
                decision,
                old(self).filter.screening(identifier@, history@),
                identifier@,
            ),
            decision is Submit ==> !final(self).filter.rejected().contains(identifier@),
    {
        enforce_fixed_value_transfer(&mut self.filter, identifier, identifier, history)
    }

    /// Feeds one activity sample to the readiness monitor and returns the
    /// flag. `None` stands for a failed query and leaves the flag alone.
    pub fn validate_mainnet_readiness(&mut self, sample: Option<usize>) -> (ready: bool)
        requires
            old(self).wf(),
        ensures
            final(self).wf(),
            final(self).same_policy(old(self)),
            final(self).filter.rejected() == old(self).filter.rejected(),
            final(self).engine@ == old(self).engine@,
            final(self).controller.migrated() == old(self).controller.migrated(),
            final(self).monitor.ready() == readiness_after(
                old(self).monitor.ready(),
                old(self).monitor.threshold(),
                sample,
            ),
            ready == final(self).monitor.ready(),
    {
        self.monitor.observe(sample)
    }

    /// Casts one batch of automated votes, each approving with the approval
    /// probability of the policy, and reports whether the ledger now
    /// exceeds the threshold.
    pub fn governance_vote_mainnet(&mut self) -> (reached: bool)
        requires
            old(self).wf(),
        ensures
            final(self).wf(),
            final(self).same_policy(old(self)),
            final(self).monitor == old(self).monitor,
            final(self).filter.rejected() == old(self).filter.rejected(),
            final(self).controller.migrated() == old(self).controller.migrated(),
            final(self).engine@.len() == old(self).engine@.len() + old(self).batch,
            final(self).engine@.take(old(self).engine@.len() as int) == old(self).engine@,
            certain_votes(old(self).engine@, final(self).engine@, old(self).approval),
            reached == final(self).consensus(),
    {
        self.engine.governance_vote(self.batch, self.approval, self.threshold)
    }

    /// Attempts to migrate one identifier.
    pub fn migrate_to_mainnet(&mut self, identifier: &str, history: &Vec<TransactionRecord>) -> (outcome:
        MigrationOutcome)
        requires
            old(self).wf(),
        ensures
            final(self).wf(),
            final(self).same_policy(old(self)),
            Self::migration_attempt(*old(self), *final(self), identifier@, history@, outcome),
    {
        if !self.controller.state_of(identifier).is_eligible() {
            return self.controller.attempt(identifier, false, false, ProvenanceVerdict::Clean);
        }
        let ready = self.monitor.is_ready();
        if !ready {
            return self.controller.attempt(identifier, false, false, ProvenanceVerdict::Clean);
        }
        let consensus = self.engine.governance_vote(self.batch, self.approval, self.threshold);
        if !consensus {
            return self.controller.attempt(identifier, true, false, ProvenanceVerdict::Clean);
        }
        let verdict = self.filter.screen(identifier, history);
        self.controller.attempt(identifier, true, true, verdict)
    }

    /// One step of the listener. A transaction is screened and either
    /// dropped or answered with a transfer order; an accepted submission is
    /// followed by a migration attempt; a refused submission or the end of
    /// the stream ends the listener and changes nothing.
    pub fn step(&mut self, event: &ListenerEvent) -> (action: ListenerAction)
        requires
            old(self).wf(),
        ensures
            final(self).wf(),
            final(self).same_policy(old(self)),
            final(self).monitor == old(self).monitor,
            match *event {
                ListenerEvent::Transaction { identifier, history } => {
                    let verdict = old(self).filter.screening(identifier@, history@);
                    &&& final(self).filter.rejected() == cache_after(
                        old(self).filter.rejected(),
                        identifier@,
                        verdict,
                    )
                    &&& final(self).engine@ == old(self).engine@
                    &&& final(self).controller.migrated() == old(self).controller.migrated()
                    &&& match action {
                        ListenerAction::Drop => verdict == ProvenanceVerdict::Tainted,
                        ListenerAction::Submit(order) => plain_decision(
                            TransferDecision::Submit(order),
                            verdict,
                            identifier@,
                        ),
                        _ => false,
                    }
                },
                ListenerEvent::Submission { identifier, history, accepted: true } => {
                    action matches ListenerAction::Proceed(outcome) && Self::migration_attempt(
                        *old(self),
                        *final(self),
                        identifier@,
                        history@,
                        outcome,
                    )
                },
                _ => {
                    &&& action is Stop
                    &&& final(self).filter.rejected() == old(self).filter.rejected()
                    &&& final(self).engine@ == old(self).engine@
                    &&& final(self).controller.migrated() == old(self).controller.migrated()
                },
            },
    {
        match event {
            ListenerEvent::Transaction { identifier, history } => {
                match self.enforce_stable_value(identifier.as_str(), history) {
                    TransferDecision::Skip => ListenerAction::Drop,
                    TransferDecision::Submit(order) => ListenerAction::Submit(order),
                }
            },
            ListenerEvent::Submission { identifier, history, accepted } => {
                if *accepted {
                    ListenerAction::Proceed(self.migrate_to_mainnet(identifier.as_str(), history))
                } else {
                    ListenerAction::Stop
                }
            },
            ListenerEvent::StreamEnded => ListenerAction::Stop,
        }
    }
}

} // verus!
