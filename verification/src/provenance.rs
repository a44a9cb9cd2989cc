//! Provenance filter: classifies an asset identifier from its ledger history.
//!
//! A record poisons an identifier when its counterparty is a known exchange
//! wallet, or when its memo, lower-cased, contains one of the forbidden
//! technology markers. Only the most recent records, up to the filter's
//! window, are inspected. A tainted identifier is remembered for good.

use vstd::prelude::*;
use vstd::string::StringSliceAdditionalSpecFns;
use vstd::utf8::encode_utf8;
use crate::registry::IdentifierSet;
use crate::text::{contains_bytes, occurs_in};

verus! {

/// Outcome of a provenance check.
#[derive(Clone, Copy, Debug, PartialEq, Eq, Structural)]
pub enum ProvenanceVerdict {
    Clean,
    Tainted,
}

/// What the filter reads of one ledger transaction.
#[derive(Clone, Debug)]
pub struct TransactionRecord {
    /// The transaction's own identifier.
    pub id: String,
    /// The account on the other side of the transaction.
    pub source_account: String,
    /// Free-text annotation, if the transaction carries one.
    pub memo: Option<String>,
}

/// Number of forbidden markers.
pub const MARKER_COUNT: usize = 5;

/// Window used when checking history before a plain transfer.
pub const DEFAULT_WINDOW: usize = 50;

/// Window used when checking history before an enveloped transfer.
pub const SHORT_WINDOW: usize = 10;

/// The account is one of the known exchange wallets.
pub open spec fn is_exchange_wallet(account: Seq<char>) -> bool {
    account == "exchange_wallet_1"@ || account == "exchange_wallet_2"@
}

/// The `index`-th forbidden marker, as bytes.
pub open spec fn forbidden_marker(index: int) -> Seq<u8> {
    if index == 0 {
        "exchange".spec_bytes()
    } else if index == 1 {
        "defi".spec_bytes()
    } else if index == 2 {
        "pow_blockchain".spec_bytes()
    } else if index == 3 {
        "altcoin".spec_bytes()
    } else {
        "erc20_token".spec_bytes()
    }
}

/// Some forbidden marker occurs in the already lower-cased text.
pub open spec fn lowered_text_flagged(lowered: Seq<u8>) -> bool {
    exists|index: int| 0 <= index < MARKER_COUNT && occurs_in(lowered, #[trigger] forbidden_marker(index))
}

/// The lower-case form of a text, as `str::to_lowercase` computes it.
pub uninterp spec fn lowercase_of(text: Seq<char>) -> Seq<char>;

/// The memo, compared without regard to case, names a forbidden technology.
pub open spec fn memo_flagged(memo: Option<String>) -> bool {
    match memo {
        Some(text) => lowered_text_flagged(encode_utf8(lowercase_of(text@))),
        None => false,
    }
}

/// The record taints whatever identifier it belongs to.
pub open spec fn record_poisoned(record: TransactionRecord) -> bool {
    is_exchange_wallet(record.source_account@) || memo_flagged(record.memo)
}

/// How many records of a history of `len` entries a window of `window` covers.
pub open spec fn inspected_len(len: nat, window: nat) -> nat {
    if window < len {
        window
    } else {
        len
    }
}

/// One of the records inside the window is poisoned. The history is ordered
/// most recent first, so the window covers its leading entries.
pub open spec fn window_poisoned(history: Seq<TransactionRecord>, window: nat) -> bool {
    exists|i: int|
        0 <= i < inspected_len(history.len(), window) && record_poisoned(#[trigger] history[i])
}

/// The verdict that a history earns under a window.
pub open spec fn verdict_of(history: Seq<TransactionRecord>, window: nat) -> ProvenanceVerdict {
    if window_poisoned(history, window) {
        ProvenanceVerdict::Tainted
    } else {
        ProvenanceVerdict::Clean
    }
}

/// The cache after an identifier has been classified. A taint is added,
/// a clean verdict changes nothing.
pub open spec fn cache_after(
    cache: Set<Seq<char>>,
    identifier: Seq<char>,
    verdict: ProvenanceVerdict,
) -> Set<Seq<char>> {
    if verdict == ProvenanceVerdict::Tainted {
        cache.insert(identifier)
    } else {
        cache
    }
}

/// Classifying a tainted identifier a second time, on whatever history,
/// leaves the cache as the first classification left it: the identifier is
/// in it, and the cache has not grown.
pub proof fn law_classify_idempotent(
    cache: Set<Seq<char>>,
    identifier: Seq<char>,
    first: Seq<TransactionRecord>,
    second: Seq<TransactionRecord>,
    window: nat,
)
    requires
        cache.finite(),
        verdict_of(first, window) == ProvenanceVerdict::Tainted,
    ensures
        ({
            let once = cache_after(cache, identifier, verdict_of(first, window));
            let twice = cache_after(once, identifier, verdict_of(second, window));
            &&& once.contains(identifier)
            &&& twice == once
            &&& twice.len() == once.len()
        }),
{
    let once = cache_after(cache, identifier, verdict_of(first, window));
    let twice = cache_after(once, identifier, verdict_of(second, window));
    assert(twice =~= once);
}

/// A cached taint is permanent: no later classification, of the same or of
/// another identifier, on any history, removes it.
pub proof fn law_taint_is_monotonic(
    cache: Set<Seq<char>>,
    tainted: Seq<char>,
    identifier: Seq<char>,
    history: Seq<TransactionRecord>,
    window: nat,
)
    requires
        cache.contains(tainted),
    ensures
        cache_after(cache, identifier, verdict_of(history, window)).contains(tainted),
{
}

/// Trusted: `str::to_lowercase`. The result is the Unicode lower-case form of
/// the argument and depends on nothing else; the contract only gives it a name.
#[verifier::external_body]
fn lowercase(text: &str) -> (lowered: String)
    ensures
        lowered@ == lowercase_of(text@),
{
    text.to_lowercase()
}

fn marker_text(index: usize) -> (marker: &'static str)
    requires
        index < MARKER_COUNT,
    ensures
        marker.spec_bytes() == forbidden_marker(index as int),
{
    if index == 0 {
        "exchange"
    } else if index == 1 {
        "defi"
    } else if index == 2 {
        "pow_blockchain"
    } else if index == 3 {
        "altcoin"
    } else {
        "erc20_token"
    }
}

/// Tells whether the account is a known exchange wallet.
pub fn is_exchange_counterparty(account: &String) -> (hit: bool)
    ensures
        hit == is_exchange_wallet(account@),
{
    let first = String::from_str("exchange_wallet_1");
    let second = String::from_str("exchange_wallet_2");
    *account == first || *account == second
}

/// Searches lower-cased text for a forbidden marker.
pub fn text_is_flagged(lowered: &[u8]) -> (hit: bool)
    ensures
        hit == lowered_text_flagged(lowered@),
{
    let mut index: usize = 0;
    while index < MARKER_COUNT
        invariant
            index <= MARKER_COUNT,
            forall|k: int| 0 <= k < index ==> !occurs_in(lowered@, #[trigger] forbidden_marker(k)),
        decreases MARKER_COUNT - index,
    {
        let marker = marker_text(index);
        if contains_bytes(lowered, marker.as_bytes()) {
            return true;
        }
        index += 1;
    }
    false
}

/// Tells whether a memo names a forbidden technology, whatever its case.
pub fn memo_is_flagged(memo: &Option<String>) -> (hit: bool)
    ensures
        hit == memo_flagged(*memo),
{
    match memo {
        Some(text) => {
            let lowered = lowercase(text.as_str());
            text_is_flagged(lowered.as_str().as_bytes())
        },
        None => false,
    }
}

/// Tells whether a record is poisoned.
pub fn record_is_poisoned(record: &TransactionRecord) -> (hit: bool)
    ensures
        hit == record_poisoned(*record),
{
    is_exchange_counterparty(&record.source_account) || memo_is_flagged(&record.memo)
}

/// Scans the window of a history without touching any cache.
pub fn scan_history(history: &Vec<TransactionRecord>, window: usize) -> (verdict: ProvenanceVerdict)
    ensures
        verdict == verdict_of(history@, window as nat),
{
    let limit: usize = if window < history.len() {
        window
    } else {
        history.len()
    };
    let mut i: usize = 0;
    while i < limit
        invariant
            i <= limit,
            limit == inspected_len(history@.len(), window as nat),
            forall|k: int| 0 <= k < i ==> !record_poisoned(#[trigger] history@[k]),
        decreases limit - i,
    {
        if record_is_poisoned(&history[i]) {
            return ProvenanceVerdict::Tainted;
        }
        i += 1;
    }
    ProvenanceVerdict::Clean
}

/// The filter together with its cache of rejected identifiers.
pub struct ProvenanceFilter {
    window: usize,
    rejected: IdentifierSet,
}

impl ProvenanceFilter {
    /// The cache holds no identifier twice.
    pub closed spec fn wf(&self) -> bool {
        self.rejected.wf()
    }

    /// The identifiers cached as tainted.
    pub closed spec fn rejected(&self) -> Set<Seq<char>> {
        self.rejected@
    }

    /// The number of most recent records that a classification inspects.
    pub closed spec fn window(&self) -> nat {
        self.window as nat
    }

    /// The verdict the cache holds for an identifier, if any.
    pub open spec fn cached_verdict(&self, identifier: Seq<char>) -> Option<ProvenanceVerdict> {
        if self.rejected().contains(identifier) {
            Some(ProvenanceVerdict::Tainted)
        } else {
            None
        }
    }

    /// What a screening answers: a cached taint is final, otherwise the
    /// fresh history decides.
    pub open spec fn screening(
        &self,
        identifier: Seq<char>,
        history: Seq<TransactionRecord>,
    ) -> ProvenanceVerdict {
        if self.rejected().contains(identifier) {
            ProvenanceVerdict::Tainted
        } else {
            verdict_of(history, self.window())
        }
    }

    /// A filter with an empty cache.
    pub fn new(window: usize) -> (filter: Self)
        ensures
            filter.wf(),
            filter.window() == window,
            filter.rejected() == Set::<Seq<char>>::empty(),
    {
        ProvenanceFilter { window, rejected: IdentifierSet::new() }
    }

    /// Classifies an identifier from its history and caches a taint.
    pub fn classify(&mut self, identifier: &str, history: &Vec<TransactionRecord>) -> (verdict:
        ProvenanceVerdict)
        requires
            old(self).wf(),
        ensures
            final(self).wf(),
            final(self).window() == old(self).window(),
            verdict == verdict_of(history@, old(self).window()),
            final(self).rejected() == cache_after(old(self).rejected(), identifier@, verdict),
    {
        let verdict = scan_history(history, self.window);
        if verdict == ProvenanceVerdict::Tainted {
            self.rejected.insert(identifier);
        }
        verdict
    }

    /// Cache lookup: true when the identifier has been found tainted before.
    /// A miss says nothing about the identifier.
    pub fn is_rejected(&self, identifier: &str) -> (hit: bool)
        ensures
            hit == self.rejected().contains(identifier@),
    {
        self.rejected.contains(identifier)
    }

    /// Reads the cache: a taint if one is cached, otherwise nothing.
    pub fn cached(&self, identifier: &str) -> (verdict: Option<ProvenanceVerdict>)
        ensures
            verdict == self.cached_verdict(identifier@),
    {
        if self.rejected.contains(identifier) {
            Some(ProvenanceVerdict::Tainted)
        } else {
            None
        }
    }

    /// Consults cache and fresh history together. The history is classified
    /// in any case, so a new taint is cached even for a known identifier.
    pub fn screen(&mut self, identifier: &str, history: &Vec<TransactionRecord>) -> (verdict:
        ProvenanceVerdict)
        requires
            old(self).wf(),
        ensures
            final(self).wf(),
            final(self).window() == old(self).window(),
            verdict == old(self).screening(identifier@, history@),
            final(self).rejected() == cache_after(old(self).rejected(), identifier@, verdict),
    {
        let known = self.is_rejected(identifier);
        let fresh = self.classify(identifier, history);
        if known {
            assert(old(self).rejected().insert(identifier@) =~= old(self).rejected());
            ProvenanceVerdict::Tainted
        } else {
            fresh
        }
    }

    /// Number of identifiers cached as tainted.
    pub fn rejected_count(&self) -> (count: usize)
        requires
            self.wf(),
        ensures
            self.rejected().finite(),
            count == self.rejected().len(),
    {
        self.rejected.len()
    }

    /// The configured window.
    pub fn window_size(&self) -> (window: usize)
        ensures
            window == self.window(),
    {
        self.window
    }
}

} // verus!
