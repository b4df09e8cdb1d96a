//! The parts of the `hyde-tee` crate that this library builds on, with what is taken on trust
//! of each.

use hyde_tee::backend::{BackendType, WrappedKey};
use hyde_tee::{FallbackPolicy, HydeContext, SigningAlgorithm, WrappedSigningKey};
use vstd::prelude::*;

verus! {

/// `hyde_tee::SigningAlgorithm`: the ML-DSA parameter sets.
#[verifier::external_type_specification]
pub struct ExSigningAlgorithm(SigningAlgorithm);

/// `hyde_tee::FallbackPolicy`: what to do without TEE hardware.
#[verifier::external_type_specification]
pub struct ExFallbackPolicy(FallbackPolicy);

/// `hyde_tee::backend::BackendType`: which backend sealed a key.
#[verifier::external_type_specification]
pub struct ExBackendType(BackendType);

/// `hyde_tee::backend::WrappedKey`: a data key wrapped by a backend's primary key.
#[verifier::external_type_specification]
pub struct ExWrappedKey(WrappedKey);

/// `hyde_tee::WrappedSigningKey`: a sealed signing seed with its public verifying key.
#[verifier::external_type_specification]
pub struct ExWrappedSigningKey(WrappedSigningKey);

/// `hyde_tee::HydeContext`: a backend with its primary key. Opaque.
#[verifier::external_type_specification]
#[verifier::external_body]
pub struct ExHydeContext(HydeContext);

/// A signing key as its context knows it: the parameter set, the verifying key, the wrapped
/// data key and the sealed seed.
pub type SealedKey = (SigningAlgorithm, Seq<u8>, Seq<u8>, Seq<u8>);

/// The fields of a wrapped signing key that say which seed it holds and which verifying key
/// belongs to it.
pub open spec fn sealed_key(key: WrappedSigningKey) -> SealedKey {
    (key.algorithm, key.verifying_key@, key.wrapping_key.blob@, key.sealed_signing_key@)
}

/// The length of an encoded ML-DSA verifying key.
pub open spec fn verifying_key_len(algorithm: SigningAlgorithm) -> nat {
    match algorithm {
        SigningAlgorithm::MlDsa44 => 1312,
        SigningAlgorithm::MlDsa65 => 1952,
        SigningAlgorithm::MlDsa87 => 2592,
    }
}

/// What `hyde_tee::verify_signature` answers for a verifying key of the right length: whether
/// `signature` is an ML-DSA signature of `message` under `key`.
pub uninterp spec fn ml_dsa_verifies(
    algorithm: SigningAlgorithm,
    key: Seq<u8>,
    message: Seq<u8>,
    signature: Seq<u8>,
) -> bool;

/// The signing keys that a context opens: those whose sealed seed its backend unseals to the seed
/// of their verifying key. None, for a context whose backend is not one of hyde's own.
pub uninterp spec fn opened_keys(ctx: HydeContext) -> Set<SealedKey>;

/// The kind of backend of a context, its `TeeBackend::backend_type`, where that is one of hyde's
/// own; `None` for a context with any other backend.
pub uninterp spec fn backend_of(ctx: HydeContext) -> Option<BackendType>;

/// What hyde says where no TEE hardware is found.
pub open spec fn no_hardware() -> Seq<char> {
    "No TEE hardware available"@
}

/// `hyde_tee::verify_signature`. It fails exactly on a verifying key whose length is not that
/// of the parameter set, and then says "Invalid key material"; otherwise its answer is a
/// function of its four arguments.
#[verifier::external_body]
pub(crate) fn verify_signature(
    algorithm: SigningAlgorithm,
    verifying_key: &[u8],
    message: &[u8],
    signature: &[u8],
) -> (checked: Result<bool, String>)
    ensures
        checked is Err <==> verifying_key@.len() != verifying_key_len(algorithm),
        checked matches Err(text) ==> text@ == "Invalid key material"@,
        checked matches Ok(valid) ==> valid == ml_dsa_verifies(
            algorithm,
            verifying_key@,
            message@,
            signature@,
        ),
{
    match hyde_tee::verify_signature(algorithm, verifying_key, message, signature) {
        Ok(valid) => Ok(valid),
        Err(e) => Err(e.to_string()),
    }
}

/// `hyde_tee::auto_detect`, built with hyde's `software` feature and without `tpm`. A context that
/// is returned has one of hyde's own backends; under `FallbackPolicy::Deny` that is the TPM. Any
/// other policy gives a context. The one failure is that there is no hardware under `Deny`, in
/// hyde's own words; with `tpm` on there would be others.
#[verifier::external_body]
pub(crate) fn auto_detect(fallback: FallbackPolicy) -> (detected: Result<HydeContext, String>)
    ensures
        detected matches Ok(ctx) ==> backend_of(ctx) is Some,
        detected matches Ok(ctx) ==> fallback is Deny ==> backend_of(ctx)->Some_0 is Tpm,
        detected is Err ==> fallback is Deny,
        detected matches Err(text) ==> text@ == no_hardware(),
{
    match hyde_tee::auto_detect(fallback) {
        Ok(ctx) => Ok(ctx),
        Err(e) => Err(e.to_string()),
    }
}

/// `HydeContext::generate_signing_key`, for a context with one of hyde's own backends. A key that
/// is returned is of the parameter set asked for, its verifying key has the length of that set, it
/// names the context's backend, and the context opens it. The key itself is drawn at random. A
/// failure is handed on in hyde's own words, which are not those for missing hardware. The backend
/// stays, and so do the keys that the context opens.
#[verifier::external_body]
pub(crate) fn generate_signing_key(ctx: &mut HydeContext, algorithm: SigningAlgorithm) -> (made:
    Result<WrappedSigningKey, String>)
    requires
        backend_of(*old(ctx)) is Some,
    ensures
        made matches Ok(key) ==> {
            &&& key.algorithm == algorithm
            &&& key.verifying_key@.len() == verifying_key_len(algorithm)
            &&& Some(key.backend) == backend_of(*old(ctx))
            &&& opened_keys(*final(ctx)).contains(sealed_key(key))
        },
        made matches Err(text) ==> text@ != no_hardware(),
        backend_of(*final(ctx)) == backend_of(*old(ctx)),
        opened_keys(*old(ctx)).subset_of(opened_keys(*final(ctx))),
{
    match ctx.generate_signing_key(algorithm) {
        Ok(key) => Ok(key),
        Err(e) => Err(e.to_string()),
    }
}

/// `HydeContext::sign`. Whether the backend unseals the seed depends on the device. Where the
/// context opens the key, a signature that is returned verifies under its verifying key; of any
/// other key nothing is claimed. A failure is handed on in hyde's own words. Signing leaves the
/// keys that the context opens as they were.
#[verifier::external_body]
pub(crate) fn sign(ctx: &mut HydeContext, key: &WrappedSigningKey, message: &[u8]) -> (signed:
    Result<Vec<u8>, String>)
    ensures
        opened_keys(*final(ctx)) == opened_keys(*old(ctx)),
        signed matches Ok(signature) ==> opened_keys(*old(ctx)).contains(sealed_key(*key))
            ==> ml_dsa_verifies(key.algorithm, key.verifying_key@, message@, signature@),
{
    match ctx.sign(key, message) {
        Ok(signature) => Ok(signature),
        Err(e) => Err(e.to_string()),
    }
}

/// Whether `hyde_tee::auto_detect` has given this for the policy.
pub closed spec fn detection_gave(
    fallback: FallbackPolicy,
    detected: Result<HydeContext, String>,
) -> bool {
    call_ensures(auto_detect, (fallback,), detected)
}

/// Whether `HydeContext::generate_signing_key` has given this for a context in this state and the
/// parameter set.
pub closed spec fn generation_gave(
    ctx: HydeContext,
    algorithm: SigningAlgorithm,
    made: Result<WrappedSigningKey, String>,
) -> bool {
    exists|asked: &mut HydeContext|
        *asked == ctx && #[trigger] call_ensures(generate_signing_key, (asked, algorithm), made)
}

/// A signing answer as a mathematical value: the signature, or hyde's words.
pub open spec fn signing_view(signed: Result<Vec<u8>, String>) -> Result<Seq<u8>, Seq<char>> {
    match signed {
        Ok(signature) => Ok(signature@),
        Err(text) => Err(text@),
    }
}

/// Whether `HydeContext::sign` has given this for a context that opens these keys, the key and the
/// message.
pub closed spec fn signing_gave(
    opened: Set<SealedKey>,
    key: WrappedSigningKey,
    message: Seq<u8>,
    answer: Result<Seq<u8>, Seq<char>>,
) -> bool {
    exists|asked: &mut HydeContext, bytes: &[u8], signed: Result<Vec<u8>, String>|
        opened_keys(*asked) == opened && bytes@ == message && signing_view(signed) == answer
            && #[trigger] call_ensures(sign, (asked, &key, bytes), signed)
}

/// What hyde is said to have given is what a call of hyde returned, and nothing else is.
pub(crate) proof fn answers_are_given_by_hyde(
    fallback: FallbackPolicy,
    detected: Result<HydeContext, String>,
    ctx: HydeContext,
    algorithm: SigningAlgorithm,
    made: Result<WrappedSigningKey, String>,
    opened: Set<SealedKey>,
    key: WrappedSigningKey,
    message: Seq<u8>,
    answer: Result<Seq<u8>, Seq<char>>,
)
    ensures
        detection_gave(fallback, detected) <==> call_ensures(auto_detect, (fallback,), detected),
        generation_gave(ctx, algorithm, made) <==> exists|asked: &mut HydeContext|
            *asked == ctx && #[trigger] call_ensures(
                generate_signing_key,
                (asked, algorithm),
                made,
            ),
        signing_gave(opened, key, message, answer) <==> exists|
            asked: &mut HydeContext,
            bytes: &[u8],
            signed: Result<Vec<u8>, String>,
        |
            opened_keys(*asked) == opened && bytes@ == message && (match signed {
                Ok(signature) => Ok(signature@),
                Err(text) => Err(text@),
            }) == answer && #[trigger] call_ensures(sign, (asked, &key, bytes), signed),
{
}

/// Asks hyde for a context.
pub(crate) fn detect(fallback: FallbackPolicy) -> (detected: Result<HydeContext, String>)
    ensures
        detection_gave(fallback, detected),
        detected matches Ok(ctx) ==> backend_of(ctx) is Some,
        detected matches Ok(ctx) ==> fallback is Deny ==> backend_of(ctx)->Some_0 is Tpm,
        detected is Err ==> fallback is Deny,
        detected matches Err(text) ==> text@ == no_hardware(),
{
    auto_detect(fallback)
}

/// Asks a context for a new key.
pub(crate) fn generate(ctx: &mut HydeContext, algorithm: SigningAlgorithm) -> (made: Result<
    WrappedSigningKey,
    String,
>)
    requires
        backend_of(*old(ctx)) is Some,
    ensures
        generation_gave(*old(ctx), algorithm, made),
        made matches Ok(key) ==> {
            &&& key.algorithm == algorithm
            &&& key.verifying_key@.len() == verifying_key_len(algorithm)
            &&& Some(key.backend) == backend_of(*old(ctx))
            &&& opened_keys(*final(ctx)).contains(sealed_key(key))
        },
        made matches Err(text) ==> text@ != no_hardware(),
{
    generate_signing_key(ctx, algorithm)
}

/// Asks a context for a signature.
pub(crate) fn ask(ctx: &mut HydeContext, key: &WrappedSigningKey, message: &[u8]) -> (signed:
    Result<Vec<u8>, String>)
    ensures
        signing_gave(opened_keys(*old(ctx)), *key, message@, signing_view(signed)),
        opened_keys(*final(ctx)) == opened_keys(*old(ctx)),
        signed matches Ok(signature) ==> opened_keys(*old(ctx)).contains(sealed_key(*key))
            ==> ml_dsa_verifies(key.algorithm, key.verifying_key@, message@, signature@),
{
    sign(ctx, key, message)
}

} // verus!
