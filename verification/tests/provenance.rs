use maxima_hyper_pi::provenance::{
    is_exchange_counterparty, memo_is_flagged, record_is_poisoned, scan_history, text_is_flagged,
    ProvenanceFilter, ProvenanceVerdict, TransactionRecord,
};
use maxima_hyper_pi::text::{bytes_equal, contains_bytes, matches_at};

fn record(source: &str, memo: Option<&str>) -> TransactionRecord {
    TransactionRecord {
        id: String::from("tx"),
        source_account: String::from(source),
        memo: memo.map(String::from),
    }
}

#[test]
fn history_with_denylisted_counterparty_is_tainted() {
    let mut filter = ProvenanceFilter::new(50);
    let history = vec![record("alice", None), record("exchange_wallet_1", None)];
    assert_eq!(filter.classify("pi_coin_1", &history), ProvenanceVerdict::Tainted);
    assert!(filter.is_rejected("pi_coin_1"));
}

#[test]
fn second_exchange_wallet_is_denylisted_too() {
    let mut filter = ProvenanceFilter::new(50);
    let history = vec![record("exchange_wallet_2", Some("salary"))];
    assert_eq!(filter.classify("pi_coin_1", &history), ProvenanceVerdict::Tainted);
}

#[test]
fn history_without_counterparty_or_marker_is_clean() {
    let mut filter = ProvenanceFilter::new(50);
    let history = vec![
        record("alice", None),
        record("bob", Some("rent for march")),
        record("exchange_wallet_3", Some("")),
    ];
    assert_eq!(filter.classify("pi_coin_1", &history), ProvenanceVerdict::Clean);
    assert!(!filter.is_rejected("pi_coin_1"));
    assert_eq!(filter.rejected_count(), 0);
}

#[test]
fn empty_history_is_clean() {
    let mut filter = ProvenanceFilter::new(50);
    assert_eq!(filter.classify("pi_coin_1", &Vec::new()), ProvenanceVerdict::Clean);
}

#[test]
fn every_marker_taints_a_memo() {
    for marker in ["exchange", "defi", "pow_blockchain", "altcoin", "erc20_token"] {
        let memo = format!("paid via {} yesterday", marker);
        assert!(memo_is_flagged(&Some(memo)), "{}", marker);
    }
    assert!(!memo_is_flagged(&Some(String::from("paid in cash"))));
    assert!(!memo_is_flagged(&None));
}

#[test]
fn marker_match_ignores_case() {
    assert!(memo_is_flagged(&Some(String::from("Swapped on a DeFi pool"))));
    assert!(memo_is_flagged(&Some(String::from("ERC20_TOKEN"))));
    assert!(memo_is_flagged(&Some(String::from("AltCoin"))));
    assert!(record_is_poisoned(&record("alice", Some("EXCHANGE deposit"))));
}

#[test]
fn marker_match_lowercases_beyond_ascii() {
    // U+212A KELVIN SIGN lower-cases to an ordinary k.
    assert!(memo_is_flagged(&Some(String::from("POW_BLOC\u{212A}CHAIN"))));
}

#[test]
fn lower_cased_text_is_searched_as_it_stands() {
    assert!(text_is_flagged(b"a defi pool"));
    assert!(!text_is_flagged(b"a DEFI pool"));
    assert!(!text_is_flagged(b""));
    assert!(!text_is_flagged(b"def i"));
}

#[test]
fn counterparty_match_is_exact() {
    assert!(is_exchange_counterparty(&String::from("exchange_wallet_1")));
    assert!(is_exchange_counterparty(&String::from("exchange_wallet_2")));
    assert!(!is_exchange_counterparty(&String::from("Exchange_Wallet_1")));
    assert!(!is_exchange_counterparty(&String::from("exchange_wallet_10")));
    assert!(!is_exchange_counterparty(&String::from("")));
}

#[test]
fn only_the_window_is_inspected() {
    let mut history = Vec::new();
    for _ in 0..10 {
        history.push(record("alice", None));
    }
    history.push(record("exchange_wallet_1", None));
    assert_eq!(scan_history(&history, 10), ProvenanceVerdict::Clean);
    assert_eq!(scan_history(&history, 11), ProvenanceVerdict::Tainted);
    assert_eq!(scan_history(&history, 50), ProvenanceVerdict::Tainted);
    assert_eq!(scan_history(&history, 0), ProvenanceVerdict::Clean);
    let mut filter = ProvenanceFilter::new(10);
    assert_eq!(filter.window_size(), 10);
    assert_eq!(filter.classify("pi_coin_1", &history), ProvenanceVerdict::Clean);
}

#[test]
fn classifying_a_tainted_identifier_twice_keeps_one_entry() {
    let mut filter = ProvenanceFilter::new(50);
    let history = vec![record("exchange_wallet_1", None)];
    assert_eq!(filter.classify("pi_coin_1", &history), ProvenanceVerdict::Tainted);
    assert_eq!(filter.rejected_count(), 1);
    assert_eq!(filter.classify("pi_coin_1", &history), ProvenanceVerdict::Tainted);
    assert_eq!(filter.rejected_count(), 1);
    assert!(filter.is_rejected("pi_coin_1"));
    assert_eq!(filter.classify("pi_coin_2", &history), ProvenanceVerdict::Tainted);
    assert_eq!(filter.rejected_count(), 2);
}

#[test]
fn a_cached_taint_is_never_downgraded() {
    let mut filter = ProvenanceFilter::new(50);
    let tainted = vec![record("exchange_wallet_1", None)];
    let clean = vec![record("alice", None)];
    assert_eq!(filter.classify("pi_coin_1", &tainted), ProvenanceVerdict::Tainted);
    assert_eq!(filter.classify("pi_coin_1", &clean), ProvenanceVerdict::Clean);
    assert!(filter.is_rejected("pi_coin_1"));
    assert_eq!(filter.classify("pi_coin_2", &clean), ProvenanceVerdict::Clean);
    assert!(filter.is_rejected("pi_coin_1"));
    assert!(!filter.is_rejected("pi_coin_2"));
    assert_eq!(filter.cached("pi_coin_1"), Some(ProvenanceVerdict::Tainted));
    assert_eq!(filter.cached("pi_coin_2"), None);
    assert_eq!(filter.screen("pi_coin_1", &clean), ProvenanceVerdict::Tainted);
    assert_eq!(filter.screen("pi_coin_2", &clean), ProvenanceVerdict::Clean);
    assert_eq!(filter.rejected_count(), 1);
}

#[test]
fn screening_caches_a_fresh_taint() {
    let mut filter = ProvenanceFilter::new(50);
    let tainted = vec![record("bob", Some("bought an altcoin"))];
    assert_eq!(filter.screen("pi_coin_9", &tainted), ProvenanceVerdict::Tainted);
    assert!(filter.is_rejected("pi_coin_9"));
}

#[test]
fn byte_search_finds_runs_at_every_position() {
    assert!(contains_bytes(b"abcdef", b"abc"));
    assert!(contains_bytes(b"abcdef", b"cde"));
    assert!(contains_bytes(b"abcdef", b"def"));
    assert!(contains_bytes(b"abcdef", b""));
    assert!(contains_bytes(b"", b""));
    assert!(!contains_bytes(b"abcdef", b"abd"));
    assert!(!contains_bytes(b"abc", b"abcd"));
    assert!(!contains_bytes(b"", b"a"));
    assert!(matches_at(b"abcdef", b"cd", 2));
    assert!(!matches_at(b"abcdef", b"cd", 1));
    assert!(bytes_equal(b"abc", b"abc"));
    assert!(!bytes_equal(b"abc", b"abd"));
    assert!(!bytes_equal(b"abc", b"ab"));
}
