use maxima_hyper_pi::adapter::{ListenerAction, ListenerEvent, StellarPiAdapter};
use maxima_hyper_pi::consensus::Fraction;
use maxima_hyper_pi::envelope::body_of;
use maxima_hyper_pi::kem::{KEM_CIPHERTEXT_LEN, SHARED_SECRET_LEN};
use maxima_hyper_pi::migration::{MigrationController, MigrationOutcome, MigrationState};
use maxima_hyper_pi::provenance::{ProvenanceFilter, ProvenanceVerdict, TransactionRecord};
use maxima_hyper_pi::quantum::QuantumCryptoModule;
use maxima_hyper_pi::transfer::{
    enforce_fixed_value_transfer, plan_transfer, secure_fixed_value_transfer, transfer_message,
    TransferDecision, BASE_FEE, STABLE_VALUE,
};

fn record(source: &str, memo: Option<&str>) -> TransactionRecord {
    TransactionRecord {
        id: String::from("tx"),
        source_account: String::from(source),
        memo: memo.map(String::from),
    }
}

fn clean_history() -> Vec<TransactionRecord> {
    vec![record("alice", None), record("bob", Some("groceries"))]
}

fn tainted_history() -> Vec<TransactionRecord> {
    vec![record("alice", None), record("exchange_wallet_2", None)]
}

fn certain(approve: bool) -> Fraction {
    Fraction::new(if approve { 1 } else { 0 }, 1).unwrap()
}

fn gate(approve: bool) -> StellarPiAdapter {
    StellarPiAdapter::with_policy(50, 1000, 10, certain(approve), Fraction::three_quarters())
}

#[test]
fn tainted_identifier_is_never_submitted() {
    let mut filter = ProvenanceFilter::new(50);
    for _ in 0..3 {
        let decision =
            enforce_fixed_value_transfer(&mut filter, "dest", "pi_coin_1", &tainted_history());
        assert!(matches!(decision, TransferDecision::Skip));
    }
    // The taint is cached: a clean history does not clear it.
    let decision = enforce_fixed_value_transfer(&mut filter, "dest", "pi_coin_1", &clean_history());
    assert!(matches!(decision, TransferDecision::Skip));
    assert_eq!(filter.rejected_count(), 1);
}

#[test]
fn clean_identifier_gets_the_fixed_amount() {
    let mut filter = ProvenanceFilter::new(50);
    match enforce_fixed_value_transfer(&mut filter, "dest_account", "pi_coin_1", &clean_history()) {
        TransferDecision::Submit(order) => {
            assert_eq!(order.destination, "dest_account");
            assert_eq!(order.amount, 314159);
            assert_eq!(order.amount, STABLE_VALUE);
            assert!(order.envelope.is_none());
        }
        TransferDecision::Skip => panic!("a clean identifier was skipped"),
    }
    assert!(!filter.is_rejected("pi_coin_1"));
    assert_eq!(BASE_FEE, 100);
}

#[test]
fn plan_follows_the_verdict() {
    assert!(matches!(plan_transfer(ProvenanceVerdict::Tainted, "d"), TransferDecision::Skip));
    match plan_transfer(ProvenanceVerdict::Clean, "d") {
        TransferDecision::Submit(order) => {
            assert_eq!((order.destination.as_str(), order.amount), ("d", 314159));
        }
        TransferDecision::Skip => panic!("a clean verdict was skipped"),
    }
}

#[test]
fn transfer_text_names_amount_and_destination() {
    assert_eq!(
        transfer_message("destination_account"),
        "Transfer 314159 PI to destination_account at value 314159"
    );
    assert_eq!(transfer_message(""), "Transfer 314159 PI to  at value 314159");
}

#[test]
fn secure_transfer_seals_the_transfer_text() {
    let mut module = QuantumCryptoModule::new();
    let key = module.service.signing_public_key();
    let decision = module.secure_pi_transfer("pi_coin_123", "destination_account", &clean_history());
    let order = match decision {
        TransferDecision::Submit(order) => order,
        TransferDecision::Skip => panic!("a clean identifier was skipped"),
    };
    assert_eq!(order.destination, "destination_account");
    assert_eq!(order.amount, 314159);
    let envelope = order.envelope.expect("an enveloped transfer carries its envelope");
    let text = transfer_message("destination_account").into_bytes();
    assert!(text.len() > SHARED_SECRET_LEN);
    assert_eq!(envelope.ciphertext.len(), KEM_CIPHERTEXT_LEN + text.len());
    assert_eq!(body_of(&envelope.ciphertext).len(), text.len());
    assert_ne!(body_of(&envelope.ciphertext), text);
    assert_eq!(module.verify_and_decrypt(&envelope, &key), Ok(text));
}

#[test]
fn secure_transfer_skips_a_tainted_coin() {
    let mut module = QuantumCryptoModule::new();
    assert!(!module.check_rejection("pi_coin_123", &tainted_history()));
    assert!(module.check_rejection("pi_coin_456", &clean_history()));
    let decision = module.secure_pi_transfer("pi_coin_123", "destination_account", &clean_history());
    assert!(matches!(decision, TransferDecision::Skip));
    let mut filter = ProvenanceFilter::new(10);
    let decision = secure_fixed_value_transfer(
        &mut filter,
        &module.service,
        "destination_account",
        "pi_coin_789",
        &tainted_history(),
    );
    assert!(matches!(decision, TransferDecision::Skip));
}

#[test]
fn quantum_module_signs_and_seals() {
    let module = QuantumCryptoModule::new();
    let key = module.service.signing_public_key();
    let envelope = module.encrypt_transaction(b"hello");
    assert_eq!(module.verify_and_decrypt(&envelope, &key), Ok(b"hello".to_vec()));
    let signature = module.sign_transaction(&body_of(&envelope.ciphertext));
    let mut resigned = envelope.clone();
    resigned.signature = signature;
    assert_eq!(module.verify_and_decrypt(&resigned, &key), Ok(b"hello".to_vec()));
    assert_eq!(module.filter.window_size(), 10);
}

#[test]
fn identifier_starts_eligible() {
    let controller = MigrationController::new();
    assert_eq!(controller.state_of("pi_coin_1"), MigrationState::Eligible);
    assert!(controller.state_of("pi_coin_1").is_eligible());
    assert_eq!(controller.migrated_count(), 0);
}

#[test]
fn migration_without_readiness_changes_nothing() {
    let mut controller = MigrationController::new();
    for consensus in [false, true] {
        for verdict in [ProvenanceVerdict::Clean, ProvenanceVerdict::Tainted] {
            assert_eq!(
                controller.attempt("pi_coin_1", false, consensus, verdict),
                MigrationOutcome::NotReady
            );
            assert_eq!(controller.state_of("pi_coin_1"), MigrationState::Eligible);
        }
    }
}

#[test]
fn conditions_are_checked_in_order() {
    let mut controller = MigrationController::new();
    assert_eq!(
        controller.attempt("c", false, false, ProvenanceVerdict::Tainted),
        MigrationOutcome::NotReady
    );
    assert_eq!(
        controller.attempt("c", true, false, ProvenanceVerdict::Tainted),
        MigrationOutcome::NoConsensus
    );
    assert_eq!(
        controller.attempt("c", true, true, ProvenanceVerdict::Tainted),
        MigrationOutcome::Tainted
    );
    assert_eq!(controller.state_of("c"), MigrationState::Eligible);
}

#[test]
fn migration_happens_exactly_once() {
    let mut controller = MigrationController::new();
    assert_eq!(
        controller.attempt("pi_coin_1", true, true, ProvenanceVerdict::Clean),
        MigrationOutcome::Migrated
    );
    assert_eq!(controller.state_of("pi_coin_1"), MigrationState::Migrated);
    assert_eq!(
        controller.attempt("pi_coin_1", true, true, ProvenanceVerdict::Clean),
        MigrationOutcome::AlreadyMigrated
    );
    assert_eq!(
        controller.attempt("pi_coin_1", false, false, ProvenanceVerdict::Tainted),
        MigrationOutcome::AlreadyMigrated
    );
    assert_eq!(controller.migrated_count(), 1);
    assert_eq!(controller.state_of("pi_coin_2"), MigrationState::Eligible);
}

#[test]
fn gate_starts_with_the_default_policy() {
    let adapter = StellarPiAdapter::new();
    assert_eq!(adapter.filter.window_size(), 50);
    assert_eq!(adapter.monitor.activity_threshold(), 1000);
    assert!(!adapter.monitor.is_ready());
    assert_eq!(adapter.engine.vote_count(), 0);
    assert_eq!(adapter.batch, 10);
    assert_eq!((adapter.approval.numerator(), adapter.approval.denominator()), (3, 4));
    assert_eq!((adapter.threshold.numerator(), adapter.threshold.denominator()), (3, 4));
}

#[test]
fn gate_migrates_only_when_ready_voted_and_clean() {
    let mut adapter = gate(true);
    assert_eq!(adapter.migrate_to_mainnet("c", &clean_history()), MigrationOutcome::NotReady);
    assert_eq!(adapter.engine.vote_count(), 0);
    assert!(!adapter.validate_mainnet_readiness(Some(999)));
    assert_eq!(adapter.migrate_to_mainnet("c", &clean_history()), MigrationOutcome::NotReady);
    assert!(adapter.validate_mainnet_readiness(Some(1000)));
    assert!(adapter.validate_mainnet_readiness(None));
    assert_eq!(adapter.migrate_to_mainnet("t", &tainted_history()), MigrationOutcome::Tainted);
    assert_eq!(adapter.engine.vote_count(), 10);
    assert!(adapter.filter.is_rejected("t"));
    assert_eq!(adapter.migrate_to_mainnet("t", &clean_history()), MigrationOutcome::Tainted);
    assert_eq!(adapter.migrate_to_mainnet("c", &clean_history()), MigrationOutcome::Migrated);
    assert_eq!(adapter.engine.vote_count(), 30);
    assert_eq!(adapter.migrate_to_mainnet("c", &clean_history()), MigrationOutcome::AlreadyMigrated);
    assert_eq!(adapter.engine.vote_count(), 30);
    assert_eq!(adapter.controller.migrated_count(), 1);
}

#[test]
fn gate_without_consensus_does_not_consult_history() {
    let mut adapter = gate(false);
    assert!(adapter.validate_mainnet_readiness(Some(2000)));
    assert_eq!(adapter.migrate_to_mainnet("t", &tainted_history()), MigrationOutcome::NoConsensus);
    assert_eq!(adapter.engine.vote_count(), 10);
    assert!(!adapter.filter.is_rejected("t"));
    assert!(!adapter.governance_vote_mainnet());
    assert_eq!(adapter.engine.vote_count(), 20);
    assert_eq!(adapter.controller.state_of("t"), MigrationState::Eligible);
}

#[test]
fn gate_checks_history_and_enforces_value() {
    let mut adapter = gate(true);
    assert!(adapter.check_coin_history("c", &clean_history()));
    assert!(!adapter.check_coin_history("t", &tainted_history()));
    assert!(!adapter.check_coin_history("t", &clean_history()));
    assert!(matches!(adapter.enforce_stable_value("t", &clean_history()), TransferDecision::Skip));
    match adapter.enforce_stable_value("c", &clean_history()) {
        TransferDecision::Submit(order) => {
            assert_eq!((order.destination.as_str(), order.amount), ("c", 314159));
        }
        TransferDecision::Skip => panic!("a clean identifier was skipped"),
    }
    assert!(adapter.governance_vote_mainnet());
}

#[test]
fn listener_drops_tainted_and_forwards_clean() {
    let mut adapter = gate(true);
    adapter.validate_mainnet_readiness(Some(1000));
    let tainted = ListenerEvent::Transaction {
        identifier: String::from("t"),
        history: tainted_history(),
    };
    assert!(matches!(adapter.step(&tainted), ListenerAction::Drop));
    let clean = ListenerEvent::Transaction {
        identifier: String::from("c"),
        history: clean_history(),
    };
    match adapter.step(&clean) {
        ListenerAction::Submit(order) => {
            assert_eq!((order.destination.as_str(), order.amount), ("c", 314159));
        }
        _ => panic!("a clean event was not forwarded"),
    }
    assert_eq!(adapter.controller.state_of("c"), MigrationState::Eligible);
    let accepted = ListenerEvent::Submission {
        identifier: String::from("c"),
        history: clean_history(),
        accepted: true,
    };
    assert!(matches!(adapter.step(&accepted), ListenerAction::Proceed(MigrationOutcome::Migrated)));
    assert!(matches!(
        adapter.step(&accepted),
        ListenerAction::Proceed(MigrationOutcome::AlreadyMigrated)
    ));
}

#[test]
fn listener_stops_on_refusal_or_end_of_stream() {
    let mut adapter = gate(true);
    adapter.validate_mainnet_readiness(Some(1000));
    let refused = ListenerEvent::Submission {
        identifier: String::from("c"),
        history: clean_history(),
        accepted: false,
    };
    assert!(matches!(adapter.step(&refused), ListenerAction::Stop));
    assert!(matches!(adapter.step(&ListenerEvent::StreamEnded), ListenerAction::Stop));
    assert_eq!(adapter.engine.vote_count(), 0);
    assert_eq!(adapter.controller.state_of("c"), MigrationState::Eligible);
}
