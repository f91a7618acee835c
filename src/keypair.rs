use ssh_key::private::KeypairData;
use ssh_key::public::KeyData;
use ssh_key::{Algorithm, PrivateKey, PublicKey, Signature};
use signature::{Signer, Verifier};
use vstd::prelude::*;

verus! {

#[verifier::external_type_specification]
#[verifier::external_body]
pub struct ExKeypairData(KeypairData);

#[verifier::external_type_specification]
#[verifier::external_body]
pub struct ExKeyData(KeyData);

#[verifier::external_type_specification]
#[verifier::external_body]
pub struct ExAlgorithm(Algorithm);

#[verifier::external_type_specification]
#[verifier::external_body]
pub struct ExSignature(Signature);

#[verifier::external_type_specification]
#[verifier::external_body]
pub struct ExPrivateKey(PrivateKey);

#[verifier::external_type_specification]
#[verifier::external_body]
pub struct ExPublicKey(PublicKey);

#[verifier::external_type_specification]
#[verifier::external_body]
pub struct ExSshKeyError(ssh_key::Error);

#[verifier::external_type_specification]
#[verifier::external_body]
pub struct ExSignatureError(signature::Error);

/// Why a key pair could not be read, written or used.
#[derive(Debug, Clone, Copy, PartialEq, Eq, Structural)]
pub enum KeyPairError {
    ParsingError,
    WritingError,
    NoPrivateKey,
    NoPublicKey,
    NoPassphraseProvided,
    WrongPassphraseProvided,
    SigningError,
}

/// The algorithm that ssh-key's `KeypairData::algorithm` reads off a key;
/// `None` for an encrypted key.
pub uninterp spec fn private_algorithm_of(k: KeypairData) -> Option<Algorithm>;

/// The algorithm that ssh-key's `KeyData::algorithm` reads off a public key.
pub uninterp spec fn public_algorithm_of(k: KeyData) -> Algorithm;

/// The signature that ssh-key's `Signer<Signature>` for `KeypairData` makes of
/// a message (deterministic for the enabled algorithms); `None` when it fails.
pub uninterp spec fn raw_signature_of(k: KeypairData, message: Seq<u8>) -> Option<Signature>;

/// Whether ssh-key's `Verifier<Signature>` for `KeyData` accepts a signature
/// of a message.
pub uninterp spec fn verifies_of(k: KeyData, message: Seq<u8>, sig: Signature) -> bool;

/// The signature that ssh-key's `Signature::new` builds of an algorithm and
/// raw bytes; `None` when their length does not suit the algorithm.
pub uninterp spec fn signature_from(algorithm: Algorithm, data: Seq<u8>) -> Option<Signature>;

/// The raw bytes that ssh-key's `Signature::as_bytes` gives of a signature.
pub uninterp spec fn signature_data_of(sig: Signature) -> Seq<u8>;

/// Whether ssh-key's `PrivateKey::is_encrypted` holds of a key.
pub uninterp spec fn encrypted_of(k: PrivateKey) -> bool;

/// Relies on ssh-key's `KeypairData::algorithm`, which fails on an encrypted
/// key.
#[verifier::external_body]
fn private_algorithm(k: &KeypairData) -> (r: Result<Algorithm, ssh_key::Error>)
    ensures
        r is Ok == private_algorithm_of(*k) is Some,
        r is Ok ==> r->Ok_0 == private_algorithm_of(*k)->Some_0,
{
    k.algorithm()
}

/// Relies on ssh-key's `KeyData::algorithm`.
#[verifier::external_body]
fn public_algorithm(k: &KeyData) -> (r: Algorithm)
    ensures
        r == public_algorithm_of(*k),
{
    k.algorithm()
}

/// Relies on ssh-key's `Signer<Signature>` for `KeypairData`.
#[verifier::external_body]
fn sign_raw(k: &KeypairData, message: &[u8]) -> (r: Result<Signature, signature::Error>)
    ensures
        r is Ok == raw_signature_of(*k, message@) is Some,
        r is Ok ==> r->Ok_0 == raw_signature_of(*k, message@)->Some_0,
{
    k.try_sign(message)
}

/// Relies on ssh-key's `Verifier<Signature>` for `KeyData`.
#[verifier::external_body]
fn verify_raw(k: &KeyData, message: &[u8], sig: &Signature) -> (r: Result<(), signature::Error>)
    ensures
        r is Ok == verifies_of(*k, message@, *sig),
{
    k.verify(message, sig)
}

/// Relies on ssh-key's `Signature::new`, which checks the length of the raw
/// signature for the algorithm and keeps the bytes as they are.
#[verifier::external_body]
pub(crate) fn new_signature(algorithm: Algorithm, data: Vec<u8>) -> (r: Result<Signature, ssh_key::Error>)
    ensures
        r is Ok == signature_from(algorithm, data@) is Some,
        r is Ok ==> r->Ok_0 == signature_from(algorithm, data@)->Some_0,
        r is Ok ==> signature_data_of(r->Ok_0) == data@,
{
    Signature::new(algorithm, data)
}

/// Relies on ssh-key's `Signature::as_bytes`: the raw signature.
#[verifier::external_body]
pub(crate) fn signature_bytes(sig: &Signature) -> (r: Vec<u8>)
    ensures
        r@ == signature_data_of(*sig),
{
    sig.as_bytes().to_vec()
}

/// Relies on the `signature` crate's `Error::new`: an opaque failure.
#[verifier::external_body]
fn signing_failure() -> signature::Error {
    signature::Error::new()
}

/// Relies on ssh-key's `PrivateKey::key_data`: the key material.
#[verifier::external_body]
fn private_key_data(k: &PrivateKey) -> KeypairData {
    k.key_data().clone()
}

/// Relies on ssh-key's `From<&PrivateKey>` for `KeyData`: the public half.
#[verifier::external_body]
fn public_of_private(k: &PrivateKey) -> KeyData {
    KeyData::from(k)
}

/// Relies on ssh-key's `PublicKey::key_data`: the key material.
#[verifier::external_body]
fn public_key_data(k: &PublicKey) -> KeyData {
    k.key_data().clone()
}

/// Relies on ssh-key's `TryFrom<KeypairData>` for `PrivateKey`, which fails
/// on an encrypted key and otherwise keeps the key material unencrypted.
#[verifier::external_body]
fn private_from_data(k: KeypairData) -> (r: Result<PrivateKey, ssh_key::Error>)
    ensures
        r is Ok ==> !encrypted_of(r->Ok_0),
{
    PrivateKey::try_from(k)
}

/// Relies on `Clone` for ssh-key's `KeyData`.
#[verifier::external_body]
fn clone_public(k: &KeyData) -> KeyData {
    k.clone()
}

/// Relies on ssh-key's `From<KeyData>` for `PublicKey`.
#[verifier::external_body]
fn public_from_data(k: KeyData) -> PublicKey {
    PublicKey::from(k)
}

/// An asymmetric key: its public half, and its private half when known.
/// Signing needs the private half; verifying uses the public one.
pub struct KeyPair {
    private: Option<KeypairData>,
    public: KeyData,
}

impl KeyPair {
    /// Whether the private half is known.
    pub closed spec fn has_private(&self) -> bool {
        self.private is Some
    }

    /// The public half.
    pub closed spec fn public_spec(&self) -> KeyData {
        self.public
    }

    /// The key's algorithm, as the private half tells it when it can, else as
    /// the public half does.
    pub closed spec fn algorithm_spec(&self) -> Algorithm {
        match self.private {
            Some(p) => match private_algorithm_of(p) {
                Some(a) => a,
                None => public_algorithm_of(self.public),
            },
            None => public_algorithm_of(self.public),
        }
    }

    /// The signature the key makes of a message: the private half's raw
    /// signature, rebuilt under the private half's algorithm; `None` without
    /// a usable private half or when a step fails.
    pub closed spec fn signed(&self, message: Seq<u8>) -> Option<Signature> {
        match self.private {
            None => None,
            Some(p) => match private_algorithm_of(p) {
                None => None,
                Some(a) => match raw_signature_of(p, message) {
                    None => None,
                    Some(raw) => signature_from(a, signature_data_of(raw)),
                },
            },
        }
    }

    /// The raw bytes of the signature the key makes of a message.
    pub open spec fn signature_for(&self, message: Seq<u8>) -> Option<Seq<u8>> {
        match self.signed(message) {
            Some(sig) => Some(signature_data_of(sig)),
            None => None,
        }
    }

    pub fn can_sign(&self) -> (r: bool)
        ensures
            r == self.has_private(),
    {
        self.private.is_some()
    }

    /// The key's algorithm, as the private half tells it when it can, else
    /// as the public half does.
    pub fn algorithm(&self) -> (r: Algorithm)
        ensures
            r == self.algorithm_spec(),
    {
        match &self.private {
            Some(private) => match private_algorithm(private) {
                Ok(a) => a,
                Err(_) => public_algorithm(&self.public),
            },
            None => public_algorithm(&self.public),
        }
    }

    /// Signs a message; fails without the private half.
    pub fn try_sign(&self, message: &[u8]) -> (r: Result<Signature, signature::Error>)
        ensures
            r is Ok == self.signed(message@) is Some,
            r is Ok ==> r->Ok_0 == self.signed(message@)->Some_0,
            !self.has_private() ==> r is Err,
    {
        match &self.private {
            None => Err(signing_failure()),
            Some(keypair) => {
                let algo = match private_algorithm(keypair) {
                    Ok(a) => a,
                    Err(_) => {
                        return Err(signing_failure());
                    },
                };
                let sig = match sign_raw(keypair, message) {
                    Ok(s) => s,
                    Err(e) => {
                        return Err(e);
                    },
                };
                match new_signature(algo, signature_bytes(&sig)) {
                    Ok(signature) => Ok(signature),
                    Err(_) => Err(signing_failure()),
                }
            },
        }
    }

    /// Checks a signature of a message against the public half.
    pub fn verify(&self, message: &[u8], signature: &Signature) -> (r: Result<(), signature::Error>)
        ensures
            r is Ok == verifies_of(self.public_spec(), message@, *signature),
    {
        verify_raw(&self.public, message, signature)
    }

    /// A key pair holding both halves of a decrypted private key.
    pub fn from_private_key(key: PrivateKey) -> (r: KeyPair)
        ensures
            r.has_private(),
    {
        let public = public_of_private(&key);
        let private = Some(private_key_data(&key));
        KeyPair { private, public }
    }

    /// A key pair of the private key material; fails with
    /// `NoPassphraseProvided` when it is still encrypted.
    pub fn from_keypair_data(keydata: KeypairData) -> (r: Result<KeyPair, KeyPairError>)
        ensures
            r is Ok ==> r->Ok_0.has_private(),
            r is Err ==> r == Err::<KeyPair, KeyPairError>(KeyPairError::NoPassphraseProvided),
    {
        match private_from_data(keydata) {
            Err(_) => Err(KeyPairError::NoPassphraseProvided),
            Ok(private) => Ok(KeyPair::from_private_key(private)),
        }
    }

    /// A key pair that can only verify.
    pub fn from_public_key(key: PublicKey) -> (r: KeyPair)
        ensures
            !r.has_private(),
    {
        KeyPair { private: None, public: public_key_data(&key) }
    }

    /// The private key, to be written out; fails with `NoPrivateKey` without
    /// the private half.
    pub fn into_private_key(self) -> (r: Result<PrivateKey, KeyPairError>)
        ensures
            !self.has_private() ==> r == Err::<PrivateKey, KeyPairError>(KeyPairError::NoPrivateKey),
            self.has_private() && r is Err ==> r == Err::<PrivateKey, KeyPairError>(KeyPairError::NoPassphraseProvided),
            r is Ok ==> !encrypted_of(r->Ok_0),
    {
        match self.private {
            None => Err(KeyPairError::NoPrivateKey),
            Some(keydata) => match private_from_data(keydata) {
                Err(_) => Err(KeyPairError::NoPassphraseProvided),
                Ok(private) => Ok(private),
            },
        }
    }

    /// The public key, to be written out.
    pub fn public_key(&self) -> PublicKey {
        public_from_data(clone_public(&self.public))
    }
}

} // verus!
