//! Envelope service: confidentiality and authenticity for outbound payloads.
//!
//! An envelope's ciphertext is the encapsulated secret followed by the
//! payload masked with that secret; its signature covers the masked payload.
//! The mask is the secret repeated and cut to the payload's length, so the
//! masked payload is as long as the payload and masking twice undoes it.

use vstd::prelude::*;
use crate::kem::{
    kem_decapsulate, kem_encapsulate, kem_keypair, kem_shared_secret, KEM_CIPHERTEXT_LEN,
    KEM_PUBLIC_KEY_LEN, KEM_SECRET_KEY_LEN, SHARED_SECRET_LEN,
};
use crate::signing::{
    detached_sign, detached_signature, signature_verifies, signing_keypair, verify_detached,
    SIGNATURE_MAX_LEN, SIGNING_PUBLIC_KEY_LEN, SIGNING_SECRET_KEY_LEN,
};
use crate::text::copy_range;

verus! {

/// Why an envelope was refused.
#[derive(Clone, Copy, Debug, PartialEq, Eq, Structural)]
pub enum VerificationError {
    /// The signature does not validate for the masked payload.
    BadSignature,
    /// The ciphertext is too short to hold an encapsulated secret.
    MalformedCiphertext,
}

/// A protected payload as it travels to the counterparty.
#[derive(Clone, Debug)]
pub struct CryptoEnvelope {
    /// Encapsulated secret, then the masked payload.
    pub ciphertext: Vec<u8>,
    /// Detached signature over the masked payload.
    pub signature: Vec<u8>,
}

/// The byte of the mask at position `i`: the secret, repeated as often as
/// the data needs.
pub open spec fn mask_byte(secret: Seq<u8>, i: int) -> u8 {
    secret[i % (secret.len() as int)]
}

/// `data` combined byte by byte with the mask that `secret` gives: the
/// secret repeated and cut to the length of the data. The result is as long
/// as the data. An empty secret masks nothing.
pub open spec fn masked(data: Seq<u8>, secret: Seq<u8>) -> Seq<u8> {
    if secret.len() == 0 {
        data
    } else {
        Seq::new(data.len(), |i: int| data[i] ^ mask_byte(secret, i))
    }
}

/// The part of a ciphertext that holds the encapsulated secret.
pub open spec fn envelope_header(ciphertext: Seq<u8>) -> Seq<u8> {
    ciphertext.take(KEM_CIPHERTEXT_LEN as int)
}

/// The part of a ciphertext that holds the masked payload. A ciphertext too
/// short to hold an encapsulated secret has an empty body.
pub open spec fn envelope_body(ciphertext: Seq<u8>) -> Seq<u8> {
    if ciphertext.len() >= KEM_CIPHERTEXT_LEN {
        ciphertext.skip(KEM_CIPHERTEXT_LEN as int)
    } else {
        Seq::empty()
    }
}

/// The signature has an admissible length, the key is a signing public key,
/// and the signature validates for the message.
pub open spec fn signature_accepted(
    signature: Seq<u8>,
    message: Seq<u8>,
    public_key: Seq<u8>,
) -> bool {
    &&& signature.len() <= SIGNATURE_MAX_LEN
    &&& public_key.len() == SIGNING_PUBLIC_KEY_LEN
    &&& signature_verifies(signature, message, public_key)
}

/// The envelope is what sealing `payload` with `secret` gives: its
/// ciphertext is the encapsulation followed by the payload masked with the
/// secret, and its signature is the one that the signing key gives for the
/// masked payload.
pub open spec fn sealed_with(
    envelope: CryptoEnvelope,
    payload: Seq<u8>,
    secret: Seq<u8>,
    encapsulation: Seq<u8>,
    signing_secret: Seq<u8>,
) -> bool {
    &&& envelope.ciphertext@ == encapsulation + masked(payload, secret)
    &&& envelope.signature@ == detached_signature(masked(payload, secret), signing_secret)
    &&& envelope.signature@.len() <= SIGNATURE_MAX_LEN
}

/// The envelope seals `payload` under a signing key, with some secret of
/// the shared-secret length and some encapsulation of the length of one.
pub open spec fn seals(envelope: CryptoEnvelope, payload: Seq<u8>, signing_secret: Seq<u8>) -> bool {
    exists|secret: Seq<u8>, encapsulation: Seq<u8>|
        secret.len() == SHARED_SECRET_LEN && encapsulation.len() == KEM_CIPHERTEXT_LEN
            && #[trigger] sealed_with(envelope, payload, secret, encapsulation, signing_secret)
}

/// What opening a ciphertext yields, given whether its signature held and
/// the secret recovered from its header.
pub open spec fn opened(ciphertext: Seq<u8>, signature_ok: bool, secret: Seq<u8>) -> Result<
    Seq<u8>,
    VerificationError,
> {
    if !signature_ok {
        Err(VerificationError::BadSignature)
    } else if ciphertext.len() < KEM_CIPHERTEXT_LEN {
        Err(VerificationError::MalformedCiphertext)
    } else {
        Ok(masked(envelope_body(ciphertext), secret))
    }
}

/// An executable result carries what the model result says.
pub open spec fn agrees(
    result: Result<Vec<u8>, VerificationError>,
    model: Result<Seq<u8>, VerificationError>,
) -> bool {
    match result {
        Ok(payload) => model == Ok::<Seq<u8>, VerificationError>(payload@),
        Err(error) => model == Err::<Seq<u8>, VerificationError>(error),
    }
}

/// The masked data is as long as the data, whatever the secret.
pub proof fn law_mask_keeps_length(data: Seq<u8>, secret: Seq<u8>)
    ensures
        masked(data, secret).len() == data.len(),
{
}

/// Masking twice with one secret gives the payload back, whatever the
/// lengths of payload and secret.
pub proof fn law_mask_round_trip(payload: Seq<u8>, secret: Seq<u8>)
    ensures
        masked(masked(payload, secret), secret) == payload,
{
    if secret.len() > 0 {
        let once = masked(payload, secret);
        let twice = masked(once, secret);
        assert(twice.len() == payload.len());
        assert forall|i: int| 0 <= i < payload.len() implies twice[i] == payload[i] by {
            let p = payload[i];
            let m = mask_byte(secret, i);
            assert((p ^ m) ^ m == p) by (bit_vector);
        }
        assert(twice =~= payload);
    }
}

/// Opening what was sealed gives the payload back: a ciphertext made of an
/// encapsulation and the masked payload opens to the whole payload, once
/// the signature has held and the same secret has been recovered.
pub proof fn law_open_after_seal(payload: Seq<u8>, secret: Seq<u8>, encapsulation: Seq<u8>)
    requires
        encapsulation.len() == KEM_CIPHERTEXT_LEN,
    ensures
        opened(encapsulation + masked(payload, secret), true, secret) == Ok::<
            Seq<u8>,
            VerificationError,
        >(payload),
{
    let ciphertext = encapsulation + masked(payload, secret);
    assert(envelope_body(ciphertext) =~= masked(payload, secret));
    law_mask_round_trip(payload, secret);
}

/// An envelope sealed with a secret opens to its payload for whoever
/// recovers that secret from the header, under a key that accepts the
/// signature: the header is the encapsulation, the body the masked payload.
pub proof fn law_sealed_envelope_opens(
    envelope: CryptoEnvelope,
    payload: Seq<u8>,
    secret: Seq<u8>,
    encapsulation: Seq<u8>,
    signing_secret: Seq<u8>,
)
    requires
        encapsulation.len() == KEM_CIPHERTEXT_LEN,
        sealed_with(envelope, payload, secret, encapsulation, signing_secret),
    ensures
        envelope_header(envelope.ciphertext@) == encapsulation,
        envelope_body(envelope.ciphertext@) == masked(payload, secret),
        envelope.ciphertext@.len() == KEM_CIPHERTEXT_LEN + payload.len(),
        opened(envelope.ciphertext@, true, secret) == Ok::<Seq<u8>, VerificationError>(payload),
{
    let body = masked(payload, secret);
    assert(envelope_header(encapsulation + body) =~= encapsulation);
    assert(envelope_body(encapsulation + body) =~= body);
    law_open_after_seal(payload, secret, encapsulation);
}

/// An envelope whose signature does not hold is refused as such, whatever
/// else it contains.
pub proof fn law_bad_signature_refused(ciphertext: Seq<u8>, secret: Seq<u8>)
    ensures
        opened(ciphertext, false, secret) == Err::<Seq<u8>, VerificationError>(
            VerificationError::BadSignature,
        ),
{
}

/// Combines `data` byte by byte with the secret, repeated as often as the
/// data needs; the result is as long as the data.
pub fn apply_mask(data: &[u8], secret: &[u8]) -> (out: Vec<u8>)
    ensures
        out@ == masked(data@, secret@),
{
    if secret.len() == 0 {
        let out = copy_range(data, 0, data.len());
        assert(out@ =~= data@);
        return out;
    }
    let mut out: Vec<u8> = Vec::new();
    let mut i: usize = 0;
    while i < data.len()
        invariant
            i <= data.len(),
            secret.len() > 0,
            out@.len() == i,
            forall|k: int| 0 <= k < i ==> out@[k] == data@[k] ^ mask_byte(secret@, k),
        decreases data.len() - i,
    {
        out.push(data[i] ^ secret[i % secret.len()]);
        i += 1;
    }
    assert(out@ =~= masked(data@, secret@));
    out
}

/// The masked payload inside a ciphertext.
pub fn body_of(ciphertext: &[u8]) -> (body: Vec<u8>)
    ensures
        body@ == envelope_body(ciphertext@),
{
    if ciphertext.len() >= KEM_CIPHERTEXT_LEN {
        let body = copy_range(ciphertext, KEM_CIPHERTEXT_LEN, ciphertext.len());
        assert(body@ =~= envelope_body(ciphertext@));
        body
    } else {
        Vec::new()
    }
}

/// Joins an encapsulated secret and a masked payload into a ciphertext.
pub fn frame(encapsulation: &[u8], body: &[u8]) -> (ciphertext: Vec<u8>)
    ensures
        ciphertext@ == encapsulation@ + body@,
{
    let mut ciphertext = copy_range(encapsulation, 0, encapsulation.len());
    assert(ciphertext@ =~= encapsulation@);
    let mut i: usize = 0;
    while i < body.len()
        invariant
            i <= body.len(),
            ciphertext@ == encapsulation@ + body@.take(i as int),
        decreases body.len() - i,
    {
        ciphertext.push(body[i]);
        assert((encapsulation@ + body@.take(i as int)).push(body@[i as int]) =~= encapsulation@
            + body@.take(i + 1));
        i += 1;
    }
    assert(body@.take(body@.len() as int) =~= body@);
    ciphertext
}

/// Opens a ciphertext once the outcome of the signature check and the
/// secret recovered from the header are known. No byte of the payload is
/// produced unless the signature held.
pub fn open_verified(ciphertext: &[u8], signature_ok: bool, secret: &[u8]) -> (result: Result<
    Vec<u8>,
    VerificationError,
>)
    ensures
        agrees(result, opened(ciphertext@, signature_ok, secret@)),
{
    if !signature_ok {
        return Err(VerificationError::BadSignature);
    }
    if ciphertext.len() < KEM_CIPHERTEXT_LEN {
        return Err(VerificationError::MalformedCiphertext);
    }
    let body = body_of(ciphertext);
    Ok(apply_mask(body.as_slice(), secret))
}

/// The two key pairs of an envelope service. The secret halves are never
/// handed out.
pub struct KeyMaterial {
    kem_public: Vec<u8>,
    kem_secret: Vec<u8>,
    signing_public: Vec<u8>,
    signing_secret: Vec<u8>,
}

impl KeyMaterial {
    /// Every key has the length its scheme prescribes.
    pub closed spec fn wf(&self) -> bool {
        &&& self.kem_public@.len() == KEM_PUBLIC_KEY_LEN
        &&& self.kem_secret@.len() == KEM_SECRET_KEY_LEN
        &&& self.signing_public@.len() == SIGNING_PUBLIC_KEY_LEN
        &&& self.signing_secret@.len() == SIGNING_SECRET_KEY_LEN
    }

    /// The encapsulation public key.
    pub closed spec fn kem_public(&self) -> Seq<u8> {
        self.kem_public@
    }

    /// The encapsulation secret key.
    pub closed spec fn kem_secret(&self) -> Seq<u8> {
        self.kem_secret@
    }

    /// The signing public key.
    pub closed spec fn signing_public(&self) -> Seq<u8> {
        self.signing_public@
    }

    /// The signing secret key.
    pub closed spec fn signing_secret(&self) -> Seq<u8> {
        self.signing_secret@
    }

    /// Draws a fresh encapsulation pair and a fresh signing pair.
    pub fn generate() -> (keys: Self)
        ensures
            keys.wf(),
            keys.kem_public().len() == KEM_PUBLIC_KEY_LEN,
            keys.signing_public().len() == SIGNING_PUBLIC_KEY_LEN,
    {
        let (kem_public, kem_secret) = kem_keypair();
        let (signing_public, signing_secret) = signing_keypair();
        KeyMaterial { kem_public, kem_secret, signing_public, signing_secret }
    }
}

/// Seals and opens envelopes with one set of keys, generated once.
pub struct EnvelopeService {
    keys: KeyMaterial,
}

impl EnvelopeService {
    /// The keys are well formed.
    pub closed spec fn wf(&self) -> bool {
        self.keys.wf()
    }

    /// The service's keys.
    pub closed spec fn keys(&self) -> KeyMaterial {
        self.keys
    }

    /// A service with freshly generated keys.
    pub fn new() -> (service: Self)
        ensures
            service.wf(),
    {
        EnvelopeService { keys: KeyMaterial::generate() }
    }

    /// The key under which counterparties verify this service's signatures.
    pub fn signing_public_key(&self) -> (key: Vec<u8>)
        requires
            self.wf(),
        ensures
            key@ == self.keys().signing_public(),
            key@.len() == SIGNING_PUBLIC_KEY_LEN,
    {
        let key = copy_range(self.keys.signing_public.as_slice(), 0, self.keys.signing_public.len());
        assert(key@ =~= self.keys.signing_public@);
        key
    }

    /// The key to which counterparties encapsulate secrets for this service.
    pub fn encapsulation_public_key(&self) -> (key: Vec<u8>)
        requires
            self.wf(),
        ensures
            key@ == self.keys().kem_public(),
            key@.len() == KEM_PUBLIC_KEY_LEN,
    {
        let key = copy_range(self.keys.kem_public.as_slice(), 0, self.keys.kem_public.len());
        assert(key@ =~= self.keys.kem_public@);
        key
    }

    /// Signs data with the signing secret key.
    pub fn sign(&self, data: &[u8]) -> (signature: Vec<u8>)
        requires
            self.wf(),
        ensures
            signature@ == detached_signature(data@, self.keys().signing_secret()),
            signature@.len() <= SIGNATURE_MAX_LEN,
    {
        detached_sign(data, self.keys.signing_secret.as_slice())
    }

    /// Seals a payload with a secret that is already known, together with
    /// the encapsulation of that secret: masks the payload, signs the masked
    /// payload, and frames encapsulation and masked payload as ciphertext.
    pub fn seal(&self, payload: &[u8], secret: &[u8], encapsulation: &[u8]) -> (envelope:
        CryptoEnvelope)
        requires
            self.wf(),
        ensures
            sealed_with(
                envelope,
                payload@,
                secret@,
                encapsulation@,
                self.keys().signing_secret(),
            ),
    {
        let body = apply_mask(payload, secret);
        let signature = detached_sign(body.as_slice(), self.keys.signing_secret.as_slice());
        let ciphertext = frame(encapsulation, body.as_slice());
        CryptoEnvelope { ciphertext, signature }
    }

    /// Seals a payload: encapsulates a fresh secret to the service's own
    /// encapsulation key and seals the payload with it. The secret differs
    /// from call to call; whatever it was, the envelope is the payload
    /// sealed with it.
    pub fn encapsulate(&self, payload: &[u8]) -> (envelope: CryptoEnvelope)
        requires
            self.wf(),
        ensures
            seals(envelope, payload@, self.keys().signing_secret()),
            envelope.ciphertext@.len() == KEM_CIPHERTEXT_LEN + payload@.len(),
    {
        let (secret, encapsulation) = kem_encapsulate(self.keys.kem_public.as_slice());
        let envelope = self.seal(payload, secret.as_slice(), encapsulation.as_slice());
        proof {
            law_sealed_envelope_opens(
                envelope,
                payload@,
                secret@,
                encapsulation@,
                self.keys().signing_secret(),
            );
        }
        envelope
    }

    /// Checks the signature over the masked payload and, if it holds,
    /// recovers the secret from the header and removes the mask.
    pub fn verify_and_open(&self, envelope: &CryptoEnvelope, signing_public_key: &[u8]) -> (result:
        Result<Vec<u8>, VerificationError>)
        requires
            self.wf(),
        ensures
            agrees(
                result,
                opened(
                    envelope.ciphertext@,
                    signature_accepted(
                        envelope.signature@,
                        envelope_body(envelope.ciphertext@),
                        signing_public_key@,
                    ),
                    kem_shared_secret(
                        envelope_header(envelope.ciphertext@),
                        self.keys().kem_secret(),
                    ),
                ),
            ),
    {
        let ciphertext = envelope.ciphertext.as_slice();
        let body = body_of(ciphertext);
        let signature_ok = envelope.signature.len() <= SIGNATURE_MAX_LEN
            && signing_public_key.len() == SIGNING_PUBLIC_KEY_LEN && verify_detached(
            envelope.signature.as_slice(),
            body.as_slice(),
            signing_public_key,
        );
        if signature_ok && ciphertext.len() >= KEM_CIPHERTEXT_LEN {
            let header = copy_range(ciphertext, 0, KEM_CIPHERTEXT_LEN);
            assert(header@ =~= envelope_header(ciphertext@));
            let secret = kem_decapsulate(header.as_slice(), self.keys.kem_secret.as_slice());
            open_verified(ciphertext, signature_ok, secret.as_slice())
        } else {
            let none: Vec<u8> = Vec::new();
            open_verified(ciphertext, signature_ok, none.as_slice())
        }
    }
}

} // verus!
