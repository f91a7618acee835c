use rand_core::OsRng;
use ssh_key::{PrivateKey, PublicKey};
use vstd::prelude::*;

use crate::keypair::{encrypted_of, KeyPair, KeyPairError};

verus! {

/// Relies on ssh-key's `PrivateKey::is_encrypted`.
#[verifier::external_body]
fn is_encrypted(k: &PrivateKey) -> (r: bool)
    ensures
        r == encrypted_of(*k),
{
    k.is_encrypted()
}

/// Relies on ssh-key's `PrivateKey::decrypt`, which fails on a wrong
/// passphrase.
#[verifier::external_body]
fn decrypt(k: &PrivateKey, passphrase: &str) -> Result<PrivateKey, ssh_key::Error> {
    k.decrypt(passphrase)
}

/// Relies on ssh-key's `PrivateKey::encrypt`, salted from rand_core's `OsRng`:
/// it refuses a key that is already encrypted and gives an encrypted one.
#[verifier::external_body]
fn encrypt(k: &PrivateKey, passphrase: &str) -> (r: Result<PrivateKey, ssh_key::Error>)
    ensures
        r is Ok ==> encrypted_of(r->Ok_0),
        encrypted_of(*k) ==> r is Err,
{
    k.encrypt(&mut OsRng, passphrase)
}

/// The key pair of what was read from an OpenSSH key file: a public key
/// gives a pair that can only verify; else a private key, decrypted with the
/// passphrase when it is encrypted. `ParsingError` when neither could be
/// read.
pub fn from(public: Option<PublicKey>, private: Option<PrivateKey>, passphrase: Option<String>) -> (r: Result<KeyPair, KeyPairError>)
    ensures
        public is Some ==> r is Ok && !r->Ok_0.has_private(),
        public is None && private is None ==> r == Err::<KeyPair, KeyPairError>(KeyPairError::ParsingError),
        public is None && private is Some ==> match r {
            Ok(k) => k.has_private(),
            Err(e) => e == KeyPairError::NoPassphraseProvided || e == KeyPairError::WrongPassphraseProvided,
        },
        public is None && private is Some && !encrypted_of(private->Some_0) ==> r is Ok,
        public is None && private is Some && encrypted_of(private->Some_0) && passphrase is None
            ==> r == Err::<KeyPair, KeyPairError>(KeyPairError::NoPassphraseProvided),
        public is None && private is Some && encrypted_of(private->Some_0) && passphrase is Some
            ==> r is Ok || r == Err::<KeyPair, KeyPairError>(KeyPairError::WrongPassphraseProvided),
{
    match public {
        Some(public) => Ok(KeyPair::from_public_key(public)),
        None => {
            let private = match private {
                None => {
                    return Err(KeyPairError::ParsingError);
                },
                Some(k) => k,
            };
            if is_encrypted(&private) {
                match passphrase {
                    None => Err(KeyPairError::NoPassphraseProvided),
                    Some(passphrase) => match decrypt(&private, passphrase.as_str()) {
                        Err(_) => Err(KeyPairError::WrongPassphraseProvided),
                        Ok(decrypted) => Ok(KeyPair::from_private_key(decrypted)),
                    },
                }
            } else {
                Ok(KeyPair::from_private_key(private))
            }
        },
    }
}

/// The keys to write to OpenSSH key files: the public key, and the private
/// key when the pair has one, encrypted under a non-empty passphrase.
pub fn into(keypair: KeyPair, passphrase: Option<String>) -> (r: Result<(PublicKey, Option<PrivateKey>), KeyPairError>)
    ensures
        !keypair.has_private() ==> r is Ok && r->Ok_0.1 is None,
        keypair.has_private() ==> match r {
            Ok(keys) => keys.1 is Some,
            Err(e) => e == KeyPairError::NoPassphraseProvided || e == KeyPairError::WritingError,
        },
        r is Ok && r->Ok_0.1 is Some && passphrase is Some && passphrase->Some_0@.len() > 0
            ==> encrypted_of(r->Ok_0.1->Some_0),
        r is Ok && r->Ok_0.1 is Some && !(passphrase is Some && passphrase->Some_0@.len() > 0)
            ==> !encrypted_of(r->Ok_0.1->Some_0),
{
    let public = keypair.public_key();
    let private = match keypair.into_private_key() {
        Err(KeyPairError::NoPrivateKey) => {
            return Ok((public, None));
        },
        Err(e) => {
            return Err(e);
        },
        Ok(private) => private,
    };
    match passphrase {
        Some(passphrase) => {
            if !passphrase.as_str().is_empty() {
                match encrypt(&private, passphrase.as_str()) {
                    Ok(encrypted) => Ok((public, Some(encrypted))),
                    Err(_) => Err(KeyPairError::WritingError),
                }
            } else {
                Ok((public, Some(private)))
            }
        },
        None => Ok((public, Some(private))),
    }
}

} // verus!
