//! The initiator's side of institutional identity: producing signatures.

use crate::error::{Error, ErrorView};
use crate::hyde;
use hyde_tee::backend::BackendType;
use hyde_tee::{FallbackPolicy, HydeContext, SigningAlgorithm, WrappedSigningKey};
use vstd::prelude::*;

verus! {

/// A signer's answer as a mathematical value: the signature, or the error.
pub type Signed = Result<Seq<u8>, ErrorView>;

/// Produces institutional signatures over auth transcripts.
///
/// This is the abstraction point for the signing backend. The shipped
/// implementation is [`HydeSigner`] (ML-DSA via the `hyde` crate, TPM-bound
/// where hyde is built with its `tpm` feature); a second backend (e.g.
/// `ssh-agent`) can implement the same trait to validate portability.
pub trait InstitutionalSigner: Send + Sync + 'static {
    /// Whether `key` is one that this signer may publish as its verifying key. Any is, of a signer
    /// that does not say.
    open spec fn may_present(&self, key: Seq<u8>) -> bool {
        true
    }

    /// Whether `answer` is one that this signer may give when asked to sign `message`. Any is, of a
    /// signer that does not say.
    open spec fn may_answer(&self, message: Seq<u8>, answer: Signed) -> bool {
        true
    }

    /// The institution's publishable verifying key. Distribute this to peers
    /// out of band so they can add it to their [`crate::Roster`].
    fn verifying_key(&self) -> (key: Vec<u8>)
        ensures
            self.may_present(key@),
    ;

    /// Sign the auth transcript. May be slow (a TPM signature is ~10–100 ms),
    /// so callers run this off the connection hot path. Signing changes neither
    /// the signer's key nor what it may answer later.
    fn sign(&mut self, message: &[u8]) -> (answer: Result<Vec<u8>, Error>)
        ensures
            old(self).may_answer(message@, crate::error::outcome(answer)),
            forall|key: Seq<u8>| #[trigger]
                final(self).may_present(key) <==> old(self).may_present(key),
            forall|asked: Seq<u8>, given: Signed| #[trigger]
                final(self).may_answer(asked, given) <==> old(self).may_answer(asked, given),
    ;
}

/// An [`InstitutionalSigner`] backed by a hyde TEE context.
///
/// The ML-DSA signing seed is sealed by the active TEE backend's Primary Key;
/// the verifying key is held in the clear and published to peers.
pub struct HydeSigner {
    ctx: HydeContext,
    key: WrappedSigningKey,
    verifying_key: Vec<u8>,
}

impl HydeSigner {
    /// The ML-DSA parameter set of the key.
    pub closed spec fn algorithm(&self) -> SigningAlgorithm {
        self.key.algorithm
    }

    /// The verifying key that is published to peers.
    pub closed spec fn key(&self) -> Seq<u8> {
        self.verifying_key@
    }

    /// The sealed key that the signer was made from.
    pub closed spec fn sealed(&self) -> WrappedSigningKey {
        self.key
    }

    /// Whether the backend has given this answer for our key and the message.
    pub closed spec fn backend_gave(
        &self,
        message: Seq<u8>,
        answer: Result<Seq<u8>, Seq<char>>,
    ) -> bool {
        hyde::signing_gave(hyde::opened_keys(self.ctx), self.key, message, answer)
    }

    /// The backend that sealed the key.
    pub closed spec fn backend(&self) -> BackendType {
        self.key.backend
    }

    /// Whether the context opens the key, so that its signatures verify under it.
    pub closed spec fn holds_its_key(&self) -> bool {
        &&& self.verifying_key@ == self.key.verifying_key@
        &&& hyde::opened_keys(self.ctx).contains(hyde::sealed_key(self.key))
    }

    /// Generate a fresh device-bound institutional identity.
    ///
    /// `fallback` controls what happens when no TEE hardware is present. For a
    /// real institutional identity pass [`FallbackPolicy::Deny`] — silently
    /// falling back to a software key would defeat the hardware-binding the
    /// whole design depends on. [`FallbackPolicy::Software`] is for tests only.
    /// Without hyde's `tpm` feature, which this crate leaves off, `Deny` fails.
    pub fn generate(fallback: FallbackPolicy) -> (made: Result<Self, Error>)
        ensures
            made matches Ok(signer) ==> {
                &&& signer.holds_its_key()
                &&& signer.algorithm() == SigningAlgorithm::MlDsa65
                &&& signer.key().len() == hyde::verifying_key_len(SigningAlgorithm::MlDsa65)
                &&& fallback is Deny ==> signer.backend() is Tpm
            },
            made matches Err(error) ==> (error@ matches ErrorView::Signer(text) && (text
                == hyde::no_hardware() ==> fallback is Deny)),
            exists|detected: Result<HydeContext, String>| #[trigger]
                hyde::detection_gave(fallback, detected) && match detected {
                    Err(text) => made == Err::<HydeSigner, _>(Error::Signer(text)),
                    Ok(ctx) => exists|key: Result<WrappedSigningKey, String>| #[trigger]
                        hyde::generation_gave(ctx, SigningAlgorithm::MlDsa65, key) && match key {
                            Err(text) => made == Err::<HydeSigner, _>(Error::Signer(text)),
                            Ok(k) => made matches Ok(signer) && signer.sealed() == k,
                        },
                },
    {
        let detected = hyde::detect(fallback);
        let ghost given = detected;
        let mut ctx = match HydeSigner::from_detected(detected) {
            Ok(ctx) => ctx,
            Err(error) => {
                assert(hyde::detection_gave(fallback, given));
                return Err(error);
            },
        };
        let made = hyde::generate(&mut ctx, SigningAlgorithm::MlDsa65);
        let ghost key = made;
        assert(hyde::detection_gave(fallback, given) && given is Ok);
        assert(hyde::generation_gave(given->Ok_0, SigningAlgorithm::MlDsa65, key));
        HydeSigner::from_made(ctx, made)
    }

    /// Takes up what the search for a backend gave: the context, or hyde's words on why there is
    /// none.
    pub fn from_detected(detected: Result<HydeContext, String>) -> (ctx: Result<HydeContext, Error>)
        ensures
            ctx is Ok <==> detected is Ok,
            ctx matches Ok(c) ==> c == detected->Ok_0,
            ctx matches Err(error) ==> error == Error::Signer(detected->Err_0),
    {
        match detected {
            Ok(ctx) => Ok(ctx),
            Err(text) => Err(Error::Signer(text)),
        }
    }

    /// Builds a signer from what a context made of the request for a key: the key, or the
    /// backend's words on why there is none.
    pub fn from_made(ctx: HydeContext, made: Result<WrappedSigningKey, String>) -> (signer: Result<
        Self,
        Error,
    >)
        ensures
            signer is Ok <==> made is Ok,
            signer matches Ok(s) ==> {
                &&& s.key() == made->Ok_0.verifying_key@
                &&& s.algorithm() == made->Ok_0.algorithm
                &&& s.backend() == made->Ok_0.backend
                &&& s.sealed() == made->Ok_0
                &&& s.holds_its_key() <==> hyde::opened_keys(ctx).contains(
                    hyde::sealed_key(made->Ok_0),
                )
            },
            signer matches Err(error) ==> error == Error::Signer(made->Err_0),
    {
        match made {
            Ok(key) => Ok(HydeSigner::from_parts(ctx, key)),
            Err(text) => Err(Error::Signer(text)),
        }
    }

    /// Reconstruct a signer from a persisted [`WrappedSigningKey`] and a hyde
    /// context bound to the *same* TEE backend that produced it.
    pub fn from_parts(ctx: HydeContext, key: WrappedSigningKey) -> (signer: Self)
        ensures
            signer.key() == key.verifying_key@,
            signer.algorithm() == key.algorithm,
            signer.backend() == key.backend,
            signer.sealed() == key,
            signer.holds_its_key() <==> hyde::opened_keys(ctx).contains(hyde::sealed_key(key)),
            forall|message: Seq<u8>, answer: Result<Seq<u8>, Seq<char>>| #[trigger]
                signer.backend_gave(message, answer) <==> hyde::signing_gave(
                    hyde::opened_keys(ctx),
                    key,
                    message,
                    answer,
                ),
    {
        let verifying_key = key.verifying_key.clone();
        HydeSigner { ctx, key, verifying_key }
    }
}

impl InstitutionalSigner for HydeSigner {
    open spec fn may_present(&self, key: Seq<u8>) -> bool {
        key == self.key()
    }

    /// What the backend gives for our key and the message, and nothing else: its signature, which
    /// verifies under the published key where the context opens that key; or a signer error in its
    /// words.
    open spec fn may_answer(&self, message: Seq<u8>, answer: Signed) -> bool {
        match answer {
            Ok(signature) => self.backend_gave(message, Ok(signature)) && (self.holds_its_key()
                ==> hyde::ml_dsa_verifies(self.algorithm(), self.key(), message, signature)),
            Err(error) => error matches ErrorView::Signer(text) && self.backend_gave(
                message,
                Err(text),
            ),
        }
    }

    fn verifying_key(&self) -> Vec<u8> {
        self.verifying_key.clone()
    }

    fn sign(&mut self, message: &[u8]) -> (answer: Result<Vec<u8>, Error>)
        ensures
            final(self).key() == old(self).key(),
            final(self).algorithm() == old(self).algorithm(),
            final(self).backend() == old(self).backend(),
            final(self).sealed() == old(self).sealed(),
            old(self).backend_gave(
                message@,
                match answer {
                    Ok(signature) => Ok(signature@),
                    Err(error) => Err(error->Signer_0@),
                },
            ),
            answer matches Err(error) ==> error is Signer,
            final(self).holds_its_key() == old(self).holds_its_key(),
    {
        signed(hyde::ask(&mut self.ctx, &self.key, message))
    }
}

/// Turns a backend's answer into the signer's: the signature, or a signer error in the backend's
/// words.
pub fn signed(answer: Result<Vec<u8>, String>) -> (result: Result<Vec<u8>, Error>)
    ensures
        result is Ok <==> answer is Ok,
        result matches Ok(signature) ==> signature == answer->Ok_0,
        result matches Err(error) ==> error == Error::Signer(answer->Err_0),
{
    match answer {
        Ok(signature) => Ok(signature),
        Err(text) => Err(Error::Signer(text)),
    }
}

} // verus!
