//! Migration controller: the one-way move of an asset from its restricted
//! to its open operating mode.
//!
//! An identifier is eligible until it has migrated; nothing takes a
//! migration back. An attempt on an eligible identifier checks readiness,
//! consensus and provenance in that order and stops at the first that fails.

use vstd::prelude::*;
use crate::provenance::ProvenanceVerdict;
use crate::registry::IdentifierSet;

verus! {

/// Where an identifier stands.
#[derive(Clone, Copy, Debug, PartialEq, Eq, Structural)]
pub enum MigrationState {
    Eligible,
    Migrated,
}

impl MigrationState {
    /// True for an identifier that has not migrated.
    pub fn is_eligible(&self) -> (eligible: bool)
        ensures
            eligible == (*self == MigrationState::Eligible),
    {
        match self {
            MigrationState::Eligible => true,
            MigrationState::Migrated => false,
        }
    }
}

/// How an attempt ended. Only `Migrated` changes any state; none is an error.
#[derive(Clone, Copy, Debug, PartialEq, Eq, Structural)]
pub enum MigrationOutcome {
    /// The identifier had migrated before.
    AlreadyMigrated,
    /// The readiness flag was not set.
    NotReady,
    /// The vote did not exceed the threshold.
    NoConsensus,
    /// The identifier is tainted.
    Tainted,
    /// The identifier has now migrated.
    Migrated,
}

/// The outcome of an attempt, from the identifier's prior state and the
/// three conditions.
pub open spec fn migration_outcome(
    migrated: bool,
    ready: bool,
    consensus: bool,
    verdict: ProvenanceVerdict,
) -> MigrationOutcome {
    if migrated {
        MigrationOutcome::AlreadyMigrated
    } else if !ready {
        MigrationOutcome::NotReady
    } else if !consensus {
        MigrationOutcome::NoConsensus
    } else if verdict == ProvenanceVerdict::Tainted {
        MigrationOutcome::Tainted
    } else {
        MigrationOutcome::Migrated
    }
}

/// The migrated identifiers after an attempt on `identifier`.
pub open spec fn migrated_after(
    migrated: Set<Seq<char>>,
    identifier: Seq<char>,
    ready: bool,
    consensus: bool,
    verdict: ProvenanceVerdict,
) -> Set<Seq<char>> {
    if migration_outcome(migrated.contains(identifier), ready, consensus, verdict)
        == MigrationOutcome::Migrated {
        migrated.insert(identifier)
    } else {
        migrated
    }
}

/// Without readiness an attempt changes nothing, whatever the vote and the
/// provenance check say.
pub proof fn law_not_ready_changes_nothing(
    migrated: Set<Seq<char>>,
    identifier: Seq<char>,
    consensus: bool,
    verdict: ProvenanceVerdict,
)
    ensures
        migrated_after(migrated, identifier, false, consensus, verdict) == migrated,
{
}

/// With readiness, consensus and a clean verdict an eligible identifier
/// migrates, and any further attempt, under whatever conditions, finds it
/// migrated and leaves the state as it is: nothing migrates twice.
pub proof fn law_migrates_exactly_once(
    migrated: Set<Seq<char>>,
    identifier: Seq<char>,
    ready: bool,
    consensus: bool,
    verdict: ProvenanceVerdict,
)
    requires
        !migrated.contains(identifier),
    ensures
        ({
            let first = migrated_after(migrated, identifier, true, true, ProvenanceVerdict::Clean);
            &&& migration_outcome(false, true, true, ProvenanceVerdict::Clean)
                == MigrationOutcome::Migrated
            &&& first == migrated.insert(identifier)
            &&& migration_outcome(first.contains(identifier), ready, consensus, verdict)
                == MigrationOutcome::AlreadyMigrated
            &&& migrated_after(first, identifier, ready, consensus, verdict) == first
        }),
{
}

/// No attempt ever returns a migrated identifier to the eligible state.
pub proof fn law_migration_is_permanent(
    migrated: Set<Seq<char>>,
    done: Seq<char>,
    identifier: Seq<char>,
    ready: bool,
    consensus: bool,
    verdict: ProvenanceVerdict,
)
    requires
        migrated.contains(done),
    ensures
        migrated_after(migrated, identifier, ready, consensus, verdict).contains(done),
{
}

/// Record of the identifiers that have migrated.
pub struct MigrationController {
    migrated: IdentifierSet,
}

impl MigrationController {
    /// No identifier is recorded twice.
    pub closed spec fn wf(&self) -> bool {
        self.migrated.wf()
    }

    /// The identifiers that have migrated.
    pub closed spec fn migrated(&self) -> Set<Seq<char>> {
        self.migrated@
    }

    /// The state of an identifier.
    pub open spec fn state(&self, identifier: Seq<char>) -> MigrationState {
        if self.migrated().contains(identifier) {
            MigrationState::Migrated
        } else {
            MigrationState::Eligible
        }
    }

    /// A controller for which every identifier is eligible.
    pub fn new() -> (controller: Self)
        ensures
            controller.wf(),
            controller.migrated() == Set::<Seq<char>>::empty(),
    {
        MigrationController { migrated: IdentifierSet::new() }
    }

    /// Reads the state of an identifier.
    pub fn state_of(&self, identifier: &str) -> (state: MigrationState)
        ensures
            state == self.state(identifier@),
    {
        if self.migrated.contains(identifier) {
            MigrationState::Migrated
        } else {
            MigrationState::Eligible
        }
    }

    /// Number of identifiers that have migrated.
    pub fn migrated_count(&self) -> (count: usize)
        requires
            self.wf(),
        ensures
            self.migrated().finite(),
            count == self.migrated().len(),
    {
        self.migrated.len()
    }

    /// Attempts the transition for one identifier under the given
    /// conditions. Reading the prior state and recording the migration
    /// happen in this one call.
    pub fn attempt(
        &mut self,
        identifier: &str,
        ready: bool,
        consensus: bool,
        verdict: ProvenanceVerdict,
    ) -> (outcome: MigrationOutcome)
        requires
            old(self).wf(),
        ensures
            final(self).wf(),
            outcome == migration_outcome(
                old(self).migrated().contains(identifier@),
                ready,
                consensus,
                verdict,
            ),
            final(self).migrated() == migrated_after(
                old(self).migrated(),
                identifier@,
                ready,
                consensus,
                verdict,
            ),
    {
        if self.migrated.contains(identifier) {
            MigrationOutcome::AlreadyMigrated
        } else if !ready {
            MigrationOutcome::NotReady
        } else if !consensus {
            MigrationOutcome::NoConsensus
        } else if verdict == ProvenanceVerdict::Tainted {
            MigrationOutcome::Tainted
        } else {
            self.migrated.insert(identifier);
            MigrationOutcome::Migrated
        }
    }
}

} // verus!
