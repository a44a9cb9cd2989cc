//! Transfer executor: decides whether a fixed-value transfer goes out and
//! what it carries. Submitting the order to the ledger is left to the caller,
//! and so is any retry.

use vstd::prelude::*;
use vstd::utf8::encode_utf8;
use crate::envelope::{seals, CryptoEnvelope, EnvelopeService};
use crate::provenance::{cache_after, ProvenanceFilter, ProvenanceVerdict, TransactionRecord};

verus! {

/// The one amount that a transfer may carry.
pub const STABLE_VALUE: i64 = 314159;

/// Base fee offered with a transfer.
pub const BASE_FEE: u32 = 100;

/// A transfer ready to be submitted.
#[derive(Clone, Debug)]
pub struct TransferOrder {
    /// Account that receives the payment.
    pub destination: String,
    /// Amount paid, always the stable value.
    pub amount: i64,
    /// Envelope whose signature goes into the annotation field, if any.
    pub envelope: Option<CryptoEnvelope>,
}

/// What the executor decided.
#[derive(Clone, Debug)]
pub enum TransferDecision {
    /// The identifier is tainted: nothing is built, nothing is submitted.
    Skip,
    /// The order is to be submitted.
    Submit(TransferOrder),
}

/// The text that an enveloped transfer protects.
pub open spec fn transfer_text(destination: Seq<char>) -> Seq<char> {
    "Transfer 314159 PI to "@ + destination + " at value 314159"@
}

/// The order pays the stable value to `destination`.
pub open spec fn pays_stable_value(order: TransferOrder, destination: Seq<char>) -> bool {
    order.destination@ == destination && order.amount == STABLE_VALUE
}

/// A plain decision goes by the provenance check. It skips on a taint, otherwise an
/// order for the stable value without an envelope.
pub open spec fn plain_decision(
    decision: TransferDecision,
    verdict: ProvenanceVerdict,
    destination: Seq<char>,
) -> bool {
    match decision {
        TransferDecision::Skip => verdict == ProvenanceVerdict::Tainted,
        TransferDecision::Submit(order) => {
            &&& verdict == ProvenanceVerdict::Clean
            &&& pays_stable_value(order, destination)
            &&& order.envelope is None
        },
    }
}

/// An enveloped decision goes by the provenance check. It skips on a taint, otherwise an
/// order for the stable value with an envelope that seals the transfer text
/// under the given signing key.
pub open spec fn sealed_decision(
    decision: TransferDecision,
    verdict: ProvenanceVerdict,
    destination: Seq<char>,
    signing_secret: Seq<u8>,
) -> bool {
    match decision {
        TransferDecision::Skip => verdict == ProvenanceVerdict::Tainted,
        TransferDecision::Submit(order) => {
            &&& verdict == ProvenanceVerdict::Clean
            &&& pays_stable_value(order, destination)
            &&& order.envelope matches Some(envelope) && seals(
                envelope,
                encode_utf8(transfer_text(destination)),
                signing_secret,
            )
        },
    }
}

/// Builds the decision for a verdict that is already known.
pub fn plan_transfer(verdict: ProvenanceVerdict, destination: &str) -> (decision: TransferDecision)
    ensures
        plain_decision(decision, verdict, destination@),
{
    if verdict == ProvenanceVerdict::Tainted {
        TransferDecision::Skip
    } else {
        TransferDecision::Submit(
            TransferOrder {
                destination: String::from_str(destination),
                amount: STABLE_VALUE,
                envelope: None,
            },
        )
    }
}

/// Builds the text that an enveloped transfer protects.
pub fn transfer_message(destination: &str) -> (message: String)
    ensures
        message@ == transfer_text(destination@),
{
    let mut message = String::from_str("Transfer 314159 PI to ");
    message.append(destination);
    message.append(" at value 314159");
    message
}

/// Screens the identifier and, unless it is tainted, orders a transfer of
/// the stable value to `destination`. A tainted identifier never yields an
/// order, and a taint found here is cached.
pub fn enforce_fixed_value_transfer(
    filter: &mut ProvenanceFilter,
    destination: &str,
    identifier: &str,
    history: &Vec<TransactionRecord>,
) -> (decision: TransferDecision)
    requires
        old(filter).wf(),
    ensures
        final(filter).wf(),
        final(filter).window() == old(filter).window(),
        final(filter).rejected() == cache_after(
            old(filter).rejected(),
            identifier@,
            old(filter).screening(identifier@, history@),
        ),
        plain_decision(decision, old(filter).screening(identifier@, history@), destination@),
        decision is Submit ==> !final(filter).rejected().contains(identifier@),
{
    let verdict = filter.screen(identifier, history);
    plan_transfer(verdict, destination)
}

/// As `enforce_fixed_value_transfer`, with the transfer text sealed in an
/// envelope whose signature the caller embeds in the annotation field.
pub fn secure_fixed_value_transfer(
    filter: &mut ProvenanceFilter,
    service: &EnvelopeService,
    destination: &str,
    identifier: &str,
    history: &Vec<TransactionRecord>,
) -> (decision: TransferDecision)
    requires
        old(filter).wf(),
        service.wf(),
    ensures
        final(filter).wf(),
        final(filter).window() == old(filter).window(),
        final(filter).rejected() == cache_after(
            old(filter).rejected(),
            identifier@,
            old(filter).screening(identifier@, history@),
        ),
        sealed_decision(
            decision,
            old(filter).screening(identifier@, history@),
            destination@,
            service.keys().signing_secret(),
        ),
        decision is Submit ==> !final(filter).rejected().contains(identifier@),
{
    let verdict = filter.screen(identifier, history);
    if verdict == ProvenanceVerdict::Tainted {
        return TransferDecision::Skip;
    }
    let message = transfer_message(destination);
    let envelope = service.encapsulate(message.as_str().as_bytes());
    TransferDecision::Submit(
        TransferOrder {
            destination: String::from_str(destination),
            amount: STABLE_VALUE,
            envelope: Some(envelope),
        },
    )
}

} // verus!
