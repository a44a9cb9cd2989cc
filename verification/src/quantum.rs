//! The quantum-secured transfer path: an envelope service and a
//! provenance filter with the short window, behind one owner.

use vstd::prelude::*;
use crate::envelope::{
    agrees, envelope_body, envelope_header, opened, seals, signature_accepted, CryptoEnvelope,
    EnvelopeService, VerificationError,
};
use crate::kem::kem_shared_secret;
use crate::provenance::{
    cache_after, ProvenanceFilter, ProvenanceVerdict, TransactionRecord, SHORT_WINDOW,
};
use crate::signing::{detached_signature, SIGNATURE_MAX_LEN};
use crate::transfer::{sealed_decision, secure_fixed_value_transfer, TransferDecision};

verus! {

/// Envelope service and provenance filter of the quantum-secured gate.
pub struct QuantumCryptoModule {
    pub service: EnvelopeService,
    pub filter: ProvenanceFilter,
}

impl QuantumCryptoModule {
    /// Both components are well formed.
    pub open spec fn wf(&self) -> bool {
        self.service.wf() && self.filter.wf()
    }

    /// A module with fresh keys and an empty cache, inspecting the ten most
    /// recent records.
    pub fn new() -> (module: Self)
        ensures
            module.wf(),
            module.filter.window() == SHORT_WINDOW,
            module.filter.rejected() == Set::<Seq<char>>::empty(),
    {
        QuantumCryptoModule {
            service: EnvelopeService::new(),
            filter: ProvenanceFilter::new(SHORT_WINDOW),
        }
    }

    /// Seals data in an envelope.
    pub fn encrypt_transaction(&self, data: &[u8]) -> (envelope: CryptoEnvelope)
        requires
            self.wf(),
        ensures
            seals(envelope, data@, self.service.keys().signing_secret()),
    {
        self.service.encapsulate(data)
    }

    /// Signs data.
    pub fn sign_transaction(&self, data: &[u8]) -> (signature: Vec<u8>)
        requires
            self.wf(),
        ensures
            signature@ == detached_signature(data@, self.service.keys().signing_secret()),
            signature@.len() <= SIGNATURE_MAX_LEN,
    {
        self.service.sign(data)
    }

    /// Verifies an envelope under the given signing key and opens it.
    pub fn verify_and_decrypt(&self, envelope: &CryptoEnvelope, signing_public_key: &[u8]) -> (result:
        Result<Vec<u8>, VerificationError>)
        requires
            self.wf(),
        ensures
            agrees(
                result,
                opened(
                    envelope.ciphertext@,
                    signature_accepted(
                        envelope.signature@,
                        envelope_body(envelope.ciphertext@),
                        signing_public_key@,
                    ),
                    kem_shared_secret(
                        envelope_header(envelope.ciphertext@),
                        self.service.keys().kem_secret(),
                    ),
                ),
            ),
    {
        self.service.verify_and_open(envelope, signing_public_key)
    }

    /// Screens a coin against its history; true means clean. A taint is cached.
    pub fn check_rejection(&mut self, pi_coin_id: &str, history: &Vec<TransactionRecord>) -> (clean:
        bool)
        requires
            old(self).wf(),
        ensures
            final(self).wf(),
            final(self).service == old(self).service,
            final(self).filter.window() == old(self).filter.window(),
            clean == (old(self).filter.screening(pi_coin_id@, history@)
                == ProvenanceVerdict::Clean),
            final(self).filter.rejected() == cache_after(
                old(self).filter.rejected(),
                pi_coin_id@,
                old(self).filter.screening(pi_coin_id@, history@),
            ),
    {
        self.filter.screen(pi_coin_id, history) == ProvenanceVerdict::Clean
    }

    /// Orders an enveloped transfer of the stable value to `destination`,
    /// unless the coin is tainted.
    pub fn secure_pi_transfer(
        &mut self,
        pi_coin_id: &str,
        destination: &str,
        history: &Vec<TransactionRecord>,
    ) -> (decision: TransferDecision)
        requires
            old(self).wf(),
        ensures
            final(self).wf(),
            final(self).service == old(self).service,
            final(self).filter.window() == old(self).filter.window(),
            final(self).filter.rejected() == cache_after(
                old(self).filter.rejected(),
                pi_coin_id@,
                old(self).filter.screening(pi_coin_id@, history@),
            ),
            sealed_decision(
                decision,
                old(self).filter.screening(pi_coin_id@, history@),
                destination@,
                old(self).service.keys().signing_secret(),
            ),
            decision is Submit ==> !final(self).filter.rejected().contains(pi_coin_id@),
    {
        secure_fixed_value_transfer(
            &mut self.filter,
            &self.service,
            destination,
            pi_coin_id,
            history,
        )
    }
}

} // verus!
