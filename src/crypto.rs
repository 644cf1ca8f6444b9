//! ECDSA P-256 key pairs and SHA-256, through ring.
use vstd::prelude::*;

use crate::error::AcmeError;
use ring::signature::EcdsaKeyPair;

verus! {

#[verifier::external_type_specification]
#[verifier::external_body]
pub struct ExEcdsaKeyPair(ring::signature::EcdsaKeyPair);

#[verifier::external_type_specification]
#[verifier::external_body]
pub struct ExKeyRejected(ring::error::KeyRejected);

#[verifier::external_type_specification]
#[verifier::external_body]
pub struct ExUnspecified(ring::error::Unspecified);

/// The uncompressed public key that ring derives from a PKCS#8 blob it accepts.
pub uninterp spec fn pkcs8_public_key(pkcs8: Seq<u8>) -> Seq<u8>;

/// SHA-256 digest of `data`.
pub uninterp spec fn sha256(data: Seq<u8>) -> Seq<u8>;

/// Whether `signature` (fixed-width r || s) is a valid ECDSA P-256 / SHA-256
/// signature of `message` under the uncompressed `public_key`.
pub uninterp spec fn p256_signature_valid(
    public_key: Seq<u8>,
    message: Seq<u8>,
    signature: Seq<u8>,
) -> bool;

/// Relies on EcdsaKeyPair::generate_pkcs8 (ECDSA_P256_SHA256_FIXED_SIGNING) with the
/// system random source: a fresh PKCS#8 (v1) document holding the public key. Its
/// bytes are random.
#[verifier::external_body]
fn generate_pkcs8() -> (r: Result<Vec<u8>, ring::error::Unspecified>) {
    let rng = ring::rand::SystemRandom::new();
    match EcdsaKeyPair::generate_pkcs8(&ring::signature::ECDSA_P256_SHA256_FIXED_SIGNING, &rng) {
        Ok(doc) => Ok(doc.as_ref().to_vec()),
        Err(e) => Err(e),
    }
}

/// Relies on EcdsaKeyPair::from_pkcs8 (ECDSA_P256_SHA256_FIXED_SIGNING) and its
/// public_key: an accepted blob yields the signing handle and its public key, which
/// ring computes as the uncompressed point (0x04, X, Y) of 65 bytes.
#[verifier::external_body]
fn parse_pkcs8(pkcs8: &[u8]) -> (r: Result<(EcdsaKeyPair, Vec<u8>), ring::error::KeyRejected>)
    ensures
        r matches Ok((_, pk)) ==> pk@ == pkcs8_public_key(pkcs8@) && pk@.len() == 65 && pk@[0]
            == 4,
{
    match EcdsaKeyPair::from_pkcs8(&ring::signature::ECDSA_P256_SHA256_FIXED_SIGNING, pkcs8) {
        Ok(handle) => {
            let public_key = ring::signature::KeyPair::public_key(&handle).as_ref().to_vec();
            Ok((handle, public_key))
        },
        Err(e) => Err(e),
    }
}

/// Relies on ring::digest::digest with SHA256: the 32-byte digest of the input.
#[verifier::external_body]
pub(crate) fn sha256_digest(data: &[u8]) -> (r: Vec<u8>)
    ensures
        r@ == sha256(data@),
        r@.len() == 32,
{
    ring::digest::digest(&ring::digest::SHA256, data).as_ref().to_vec()
}

/// An ECDSA P-256 key pair: ring's signing handle together with the PKCS#8 blob it
/// was parsed from and its public key. The three are made together and never change.
pub struct KeyPair {
    handle: EcdsaKeyPair,
    pkcs8: Vec<u8>,
    public_key: Vec<u8>,
}

impl KeyPair {
    /// The PKCS#8 blob that the key pair was parsed from.
    pub closed spec fn pkcs8_bytes(&self) -> Seq<u8> {
        self.pkcs8@
    }

    /// The uncompressed SEC1 public key.
    pub closed spec fn public_key_bytes(&self) -> Seq<u8> {
        self.public_key@
    }

    /// The public key is the one ring derives from the PKCS#8 blob, in uncompressed form.
    pub open spec fn wf(&self) -> bool {
        &&& self.public_key_bytes() == pkcs8_public_key(self.pkcs8_bytes())
        &&& self.public_key_bytes().len() == 65
        &&& self.public_key_bytes()[0] == 4
    }

    /// Generates a fresh key pair.
    pub fn generate() -> (r: Result<KeyPair, AcmeError>)
        ensures
            r matches Ok(kp) ==> kp.wf(),
            r matches Err(e) ==> e == AcmeError::KeyGen || e == AcmeError::KeyDecode,
    {
        match generate_pkcs8() {
            Ok(pkcs8) => KeyPair::from_pkcs8(pkcs8),
            Err(_) => Err(AcmeError::KeyGen),
        }
    }

    /// Parses an unencrypted PKCS#8 (v1) blob that holds the public key into a key pair.
    pub fn from_pkcs8(pkcs8: Vec<u8>) -> (r: Result<KeyPair, AcmeError>)
        ensures
            r matches Ok(kp) ==> kp.wf() && kp.pkcs8_bytes() == pkcs8@,
            r matches Err(e) ==> e == AcmeError::KeyDecode,
    {
        match parse_pkcs8(pkcs8.as_slice()) {
            Ok((handle, public_key)) => Ok(KeyPair { handle, pkcs8, public_key }),
            Err(_) => Err(AcmeError::KeyDecode),
        }
    }

    /// The PKCS#8 blob, the only form in which the key is persisted.
    pub fn pkcs8(&self) -> (r: &Vec<u8>)
        ensures
            r@ == self.pkcs8_bytes(),
    {
        &self.pkcs8
    }

    /// The uncompressed public key (0x04, X, Y).
    pub fn public_key(&self) -> (r: &Vec<u8>)
        ensures
            r@ == self.public_key_bytes(),
    {
        &self.public_key
    }

    /// Relies on EcdsaKeyPair::sign with the system random source: under
    /// ECDSA_P256_SHA256_FIXED_SIGNING the signature is the 64-byte r || s that
    /// verifies against the handle's public key, which is `self.public_key`.
    #[verifier::external_body]
    pub(crate) fn sign_bytes(&self, message: &[u8]) -> (r: Result<Vec<u8>, ring::error::Unspecified>)
        ensures
            r matches Ok(sig) ==> sig@.len() == 64 && p256_signature_valid(
                self.public_key_bytes(),
                message@,
                sig@,
            ),
    {
        let rng = ring::rand::SystemRandom::new();
        match self.handle.sign(&rng, message) {
            Ok(sig) => Ok(sig.as_ref().to_vec()),
            Err(e) => Err(e),
        }
    }
}

} // verus!
