//! The acceptor's side of institutional identity: deciding who is trusted.

use crate::hyde::verify_signature;
use crate::table::Table;
use hyde_tee::SigningAlgorithm;
use vstd::prelude::*;

verus! {

/// A human-readable identifier for a verified institution (its roster label).
pub type InstitutionId = String;

/// Reasons an institutional assertion can be rejected.
#[derive(Debug)]
pub enum VerifyError {
    /// The presented verifying key is not in the roster of trusted institutions.
    UntrustedKey,
    /// The signature did not verify against the presented key.
    BadSignature,
    /// The key is known but has been revoked.
    Revoked,
    /// The underlying crypto verifier errored.
    Crypto(String),
}

/// What a [`VerifyError`] says, as a mathematical value.
pub enum VerifyErrorView {
    UntrustedKey,
    BadSignature,
    Revoked,
    Crypto(Seq<char>),
}

impl View for VerifyError {
    type V = VerifyErrorView;

    open spec fn view(&self) -> VerifyErrorView {
        match self {
            VerifyError::UntrustedKey => VerifyErrorView::UntrustedKey,
            VerifyError::BadSignature => VerifyErrorView::BadSignature,
            VerifyError::Revoked => VerifyErrorView::Revoked,
            VerifyError::Crypto(text) => VerifyErrorView::Crypto(text@),
        }
    }
}

impl VerifyErrorView {
    /// The reason in words.
    pub open spec fn message(self) -> Seq<char> {
        match self {
            VerifyErrorView::UntrustedKey => "verifying key is not a trusted institution"@,
            VerifyErrorView::BadSignature => "signature verification failed"@,
            VerifyErrorView::Revoked => "institution has been revoked"@,
            VerifyErrorView::Crypto(text) => "crypto error: "@ + text,
        }
    }
}

impl VerifyError {
    /// The reason in words.
    pub fn message(&self) -> (text: String)
        ensures
            text@ == self@.message(),
    {
        match self {
            VerifyError::UntrustedKey => "verifying key is not a trusted institution".to_owned(),
            VerifyError::BadSignature => "signature verification failed".to_owned(),
            VerifyError::Revoked => "institution has been revoked".to_owned(),
            VerifyError::Crypto(text) => "crypto error: ".to_owned().concat(text.as_str()),
        }
    }
}

/// A verifier's answer as a mathematical value: the institution's label, or the reason of the
/// refusal.
pub type Verdict = Result<Seq<char>, VerifyErrorView>;

/// The view of a verifier's answer.
pub open spec fn verdict(answer: Result<InstitutionId, VerifyError>) -> Verdict {
    match answer {
        Ok(label) => Ok(label@),
        Err(reason) => Err(reason@),
    }
}

/// Decides whether a presented institutional key + signature is trusted.
pub trait InstitutionVerifier: std::fmt::Debug + Send + Sync + 'static {
    /// Whether `answer` is one that this verifier may give to the assertion. Any is, of a verifier
    /// that does not say.
    open spec fn may_answer(
        &self,
        key: Seq<u8>,
        message: Seq<u8>,
        signature: Seq<u8>,
        answer: Verdict,
    ) -> bool {
        true
    }

    /// Verify `signature` over `message` under `verifying_key`, **and** that the
    /// key belongs to a trusted, non-revoked institution. Returns the
    /// institution's identity on success.
    fn verify(&self, verifying_key: &[u8], message: &[u8], signature: &[u8]) -> (answer: Result<
        InstitutionId,
        VerifyError,
    >)
        ensures
            self.may_answer(verifying_key@, message@, signature@, verdict(answer)),
    ;
}

/// The set of institutional verifying keys this acceptor trusts.
///
/// Maps each publishable verifying key to a human-readable label. For
/// the multi-institution threshold-FHE use case this is the known roster of
/// participating sites; remove a key to revoke it.
#[derive(Debug)]
pub struct Roster {
    keys: Table<String>,
}

impl View for Roster {
    type V = Map<Seq<u8>, Seq<char>>;

    closed spec fn view(&self) -> Map<Seq<u8>, Seq<char>> {
        self.keys@.map_values(|label: String| label@)
    }
}

impl Roster {
    /// An empty roster (trusts no one).
    pub fn new() -> (roster: Self)
        ensures
            roster@ == Map::<Seq<u8>, Seq<char>>::empty(),
    {
        let roster = Roster { keys: Table::new() };
        assert(roster@ =~= Map::<Seq<u8>, Seq<char>>::empty());
        roster
    }

    /// Add a trusted institution by its verifying key and a label.
    pub fn insert(&mut self, verifying_key: Vec<u8>, label: &str) -> (roster: &mut Self)
        ensures
            roster@ == old(self)@.insert(verifying_key@, label@),
            *final(self) == *final(roster),
    {
        self.keys.insert(verifying_key, label.to_owned());
        assert(self@ =~= old(self)@.insert(verifying_key@, label@));
        self
    }

    /// Whether this key is currently trusted.
    pub fn contains(&self, verifying_key: &[u8]) -> (trusted: bool)
        ensures
            trusted == self@.contains_key(verifying_key@),
    {
        self.keys.contains(verifying_key)
    }

    /// The label for a trusted key, if present.
    pub fn label(&self, verifying_key: &[u8]) -> (label: Option<&str>)
        ensures
            label is Some <==> self@.contains_key(verifying_key@),
            label matches Some(text) ==> text@ == self@[verifying_key@],
    {
        match self.keys.get(verifying_key) {
            Some(label) => Some(label.as_str()),
            None => None,
        }
    }

    /// Number of trusted institutions.
    pub fn len(&self) -> (count: usize)
        ensures
            self@.dom().finite(),
            count == self@.len(),
    {
        assert(self@.dom() =~= self.keys@.dom());
        self.keys.len()
    }

    /// Whether the roster is empty.
    pub fn is_empty(&self) -> (empty: bool)
        ensures
            empty <==> self@ == Map::<Seq<u8>, Seq<char>>::empty(),
    {
        let count: usize = self.len();
        proof {
            if count == 0 {
                assert(self@.dom() =~= Set::<Seq<u8>>::empty());
                assert(self@ =~= Map::<Seq<u8>, Seq<char>>::empty());
            }
        }
        count == 0
    }

    /// Turns what the crypto check said of a signature under a key into the roster's answer.
    pub fn conclude(&self, verifying_key: &[u8], checked: Result<bool, String>) -> (answer: Result<
        InstitutionId,
        VerifyError,
    >)
        ensures
            verdict(answer) == concluded(
                self@,
                verifying_key@,
                match checked {
                    Ok(valid) => Ok(valid),
                    Err(text) => Err(text@),
                },
            ),
    {
        match checked {
            Err(text) => Err(VerifyError::Crypto(text)),
            Ok(false) => Err(VerifyError::BadSignature),
            Ok(true) => match self.label(verifying_key) {
                Some(label) => Ok(label.to_owned()),
                None => Ok(String::new()),
            },
        }
    }
}

/// The answer to an assertion under `key` of whose signature the crypto check said `checked`:
/// a failed check is a crypto error, a signature that does not verify is a bad one, and one
/// that does verify gives the key's label (no text for a key without one).
pub open spec fn concluded(
    roster: Map<Seq<u8>, Seq<char>>,
    key: Seq<u8>,
    checked: Result<bool, Seq<char>>,
) -> Verdict {
    match checked {
        Err(text) => Err(VerifyErrorView::Crypto(text)),
        Ok(false) => Err(VerifyErrorView::BadSignature),
        Ok(true) => if roster.contains_key(key) {
            Ok(roster[key])
        } else {
            Ok(Seq::empty())
        },
    }
}

impl Default for Roster {
    fn default() -> (roster: Self)
        ensures
            roster@ == Map::<Seq<u8>, Seq<char>>::empty(),
    {
        Roster::new()
    }
}

impl Clone for Roster {
    fn clone(&self) -> (roster: Self)
        ensures
            roster@ == self@,
    {
        let roster = Roster { keys: self.keys.clone() };
        assert(roster@ =~= self@);
        roster
    }
}

/// An [`InstitutionVerifier`] that checks an ML-DSA signature with hyde's
/// (TEE-free) verifier and a [`Roster`] membership test.
#[derive(Debug)]
pub struct HydeVerifier {
    roster: Roster,
    algorithm: SigningAlgorithm,
}

/// The answer of a [`HydeVerifier`] with this roster and parameter set: an unknown key is
/// untrusted, whatever the signature; a known key is good for its label exactly if it has the
/// length of the parameter set and the signature verifies under it.
pub open spec fn hyde_verdict(
    roster: Map<Seq<u8>, Seq<char>>,
    algorithm: SigningAlgorithm,
    key: Seq<u8>,
    message: Seq<u8>,
    signature: Seq<u8>,
) -> Verdict {
    if !roster.contains_key(key) {
        Err(VerifyErrorView::UntrustedKey)
    } else if key.len() != crate::hyde::verifying_key_len(algorithm) {
        Err(VerifyErrorView::Crypto("Invalid key material"@))
    } else if !crate::hyde::ml_dsa_verifies(algorithm, key, message, signature) {
        Err(VerifyErrorView::BadSignature)
    } else {
        Ok(roster[key])
    }
}

impl HydeVerifier {
    /// The trusted keys and their labels.
    pub closed spec fn roster(&self) -> Map<Seq<u8>, Seq<char>> {
        self.roster@
    }

    /// The ML-DSA parameter set.
    pub closed spec fn algorithm(&self) -> SigningAlgorithm {
        self.algorithm
    }

    /// Verify against the given roster using ML-DSA-65 (matches [`HydeSigner`]).
    ///
    /// [`HydeSigner`]: crate::HydeSigner
    pub fn new(roster: Roster) -> (verifier: Self)
        ensures
            verifier.roster() == roster@,
            verifier.algorithm() == SigningAlgorithm::MlDsa65,
    {
        HydeVerifier { roster, algorithm: SigningAlgorithm::MlDsa65 }
    }

    /// Override the ML-DSA parameter set (must match the signer).
    pub fn with_algorithm(self, algorithm: SigningAlgorithm) -> (verifier: Self)
        ensures
            verifier.roster() == self.roster(),
            verifier.algorithm() == algorithm,
    {
        HydeVerifier { roster: self.roster, algorithm }
    }
}

impl Clone for HydeVerifier {
    fn clone(&self) -> (verifier: Self)
        ensures
            verifier.roster() == self.roster(),
            verifier.algorithm() == self.algorithm(),
    {
        HydeVerifier { roster: self.roster.clone(), algorithm: self.algorithm }
    }
}

impl InstitutionVerifier for HydeVerifier {
    /// The one answer of [`hyde_verdict`].
    open spec fn may_answer(
        &self,
        key: Seq<u8>,
        message: Seq<u8>,
        signature: Seq<u8>,
        answer: Verdict,
    ) -> bool {
        answer == hyde_verdict(self.roster(), self.algorithm(), key, message, signature)
    }

    fn verify(&self, verifying_key: &[u8], message: &[u8], signature: &[u8]) -> Result<
        InstitutionId,
        VerifyError,
    > {
        // Roster membership first — cheap, and avoids spending crypto on
        // unknown keys.
        if !self.roster.contains(verifying_key) {
            return Err(VerifyError::UntrustedKey);
        }
        let checked = verify_signature(self.algorithm, verifying_key, message, signature);
        self.roster.conclude(verifying_key, checked)
    }
}

} // verus!
