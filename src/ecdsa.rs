//! The ECDSA primitives of `sp_core` that the keyring relies on.
//!
//! Key pairs, public keys and signatures are opaque here. What the library
//! needs of them is that each is a function of what it was made from: a key
//! pair of its derivation string, a public key of its pair, and a signature of
//! its pair and message.

use crate::keyring::Keyring;
use sp_core::crypto::SecretStringError;
use sp_core::crypto_bytes::{CryptoBytes, PublicTag, SignatureTag};
use sp_core::ecdsa::{EcdsaTag, GenericPair, Pair, Public, Signature};
use sp_core::Pair as TraitPair;
use vstd::prelude::*;

verus! {

#[verifier::external_type_specification]
#[verifier::external_body]
#[verifier::reject_recursive_types(PUBLIC)]
pub struct ExGenericPair<PUBLIC>(GenericPair<PUBLIC>);

#[verifier::external_type_specification]
#[verifier::external_body]
#[verifier::reject_recursive_types(T)]
pub struct ExCryptoBytes<const N: usize, T>(CryptoBytes<N, T>);

#[verifier::external_type_specification]
#[verifier::external_body]
pub struct ExPublicTag(PublicTag);

#[verifier::external_type_specification]
#[verifier::external_body]
pub struct ExSignatureTag(SignatureTag);

#[verifier::external_type_specification]
#[verifier::external_body]
pub struct ExEcdsaTag(EcdsaTag);

#[verifier::external_type_specification]
#[verifier::external_body]
pub struct ExSecretStringError(SecretStringError);

/// The ECDSA key pair that `sp_core` derives from a secret URI, with no
/// password.
pub uninterp spec fn derived_pair(suri: Seq<char>) -> Pair;

/// The public half of an ECDSA key pair.
pub uninterp spec fn public_of(pair: Pair) -> Public;

/// The signature that an ECDSA key pair makes over a message.
pub uninterp spec fn signature_of(pair: Pair, message: Seq<u8>) -> Signature;

/// Relies on `sp_core::Pair::from_string` for `ecdsa::Pair`, with no password
/// override. The derivation has no randomness, so the pair depends on the
/// string alone. A string that starts with `/` is read as the public
/// development phrase followed by the junctions, and `//<name>` is one hard
/// junction: the phrase is a valid BIP-39 phrase and ECDSA derivation takes hard
/// junctions, so for each account's string the derivation succeeds.
#[verifier::external_body]
pub(crate) fn pair_from_string(suri: &str) -> (r: Result<Pair, SecretStringError>)
    requires
        exists|k: Keyring| suri@ == k.seed(),
    ensures
        r is Ok,
        r is Ok ==> r->Ok_0 == derived_pair(suri@),
{
    <Pair as TraitPair>::from_string(suri, None)
}

/// Relies on `sp_core::Pair::public` for `ecdsa::Pair`, which returns the
/// public key stored in the pair.
#[verifier::external_body]
pub(crate) fn public_key(pair: &Pair) -> (r: Public)
    ensures
        r == public_of(*pair),
{
    <Pair as TraitPair>::public(pair)
}

/// Relies on `sp_core::Pair::sign` for `ecdsa::Pair`: a recoverable secp256k1
/// signature over the BLAKE2-256 hash of the message, with an RFC 6979 nonce,
/// so the signature depends on the pair and the message alone.
#[verifier::external_body]
pub(crate) fn sign_message(pair: &Pair, message: &[u8]) -> (r: Signature)
    ensures
        r == signature_of(*pair, message@),
{
    <Pair as TraitPair>::sign(pair, message)
}

} // verus!
