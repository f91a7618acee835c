use rand_core::OsRng;
use ssh_key::{Algorithm, PrivateKey};

use toktok::config::{Config, ConfigErr, Service};
use toktok::host::{Host, IpAddress};
use toktok::keypair::{KeyPair, KeyPairError};
use toktok::openssh;

fn v4(a: u8, b: u8, c: u8, d: u8, port: u16) -> Host {
    Host::from_parts(IpAddress::V4(u32::from_be_bytes([a, b, c, d])), port)
}

fn client_config() -> Config {
    Config::new(
        Some(v4(127, 0, 0, 1, 3333)),
        v4(127, 255, 255, 255, 3333),
        v4(127, 0, 0, 1, 3334),
        Some(v4(127, 0, 0, 1, 3335)),
        None,
        None,
        None,
    )
}

fn unsigned_json(rx_port: u16) -> Vec<u8> {
    format!(
        "{{\"server\":\"127.0.0.1:3333\",\"gateway\":\"127.255.255.255:3333\",\"rx\":\"127.0.0.1:{}\",\"tx\":\"127.0.0.1:3335\",\"clients\":null,\"services\":null,\"signature\":null}}",
        rx_port
    )
    .into_bytes()
}

fn private_key() -> PrivateKey {
    PrivateKey::random(&mut OsRng, Algorithm::Ed25519).unwrap()
}

#[test]
fn signed_config_verifies_with_its_key() {
    let key = KeyPair::from_private_key(private_key());
    let mut c = client_config();
    assert_eq!(c.verify(&key, &unsigned_json(3334)), Err(ConfigErr::InvalidSignature));
    assert_eq!(c.sign(&key, &unsigned_json(3334)), Ok(()));
    assert_eq!(c.verify(&key, &unsigned_json(3334)), Ok(()));
    // a changed field changes what was signed
    assert_eq!(c.verify(&key, &unsigned_json(3336)), Err(ConfigErr::InvalidSignature));
    // another key does not vouch for it
    let other = KeyPair::from_private_key(private_key());
    assert_eq!(c.verify(&other, &unsigned_json(3334)), Err(ConfigErr::InvalidSignature));
}

#[test]
fn public_half_verifies_but_cannot_sign() {
    let private = private_key();
    let public = private.public_key().clone();
    let signer = KeyPair::from_private_key(private);
    let verifier = KeyPair::from_public_key(public);
    assert!(signer.can_sign());
    assert!(!verifier.can_sign());

    let mut c = client_config();
    assert_eq!(c.sign(&verifier, &unsigned_json(3334)), Err(ConfigErr::InvalidSignature));
    assert_eq!(c.sign(&signer, &unsigned_json(3334)), Ok(()));
    assert_eq!(c.verify(&verifier, &unsigned_json(3334)), Ok(()));

    let data = b"Hu\xc3\xaetre".to_vec();
    let sig = signer.try_sign(&data).unwrap();
    assert!(verifier.verify(&data, &sig).is_ok());
    assert!(verifier.verify(b"8tre", &sig).is_err());
    assert!(verifier.try_sign(&data).is_err());
}

#[test]
fn unreadable_signature_is_reported() {
    let key = KeyPair::from_private_key(private_key());
    let c = Config::new(None, v4(127, 255, 255, 255, 3333), v4(127, 0, 0, 1, 3333), None, None, None, Some(vec![1, 2, 3]));
    assert_eq!(c.verify(&key, b"{}"), Err(ConfigErr::UnableToReadSignature));
}

#[test]
fn config_parts_and_network() {
    let services = vec![Service::new("lama".to_string(), 1234, None)];
    let c = Config::new(
        None,
        v4(127, 255, 255, 255, 3333),
        v4(127, 0, 0, 1, 3333),
        Some(v4(127, 0, 0, 1, 3333)),
        Some(vec![(IpAddress::V4(1), v4(0, 0, 0, 1, 9))]),
        Some(services),
        None,
    );
    assert_eq!(c.tx_bind(), None);
    assert_eq!(client_config().tx_bind(), Some(v4(127, 0, 0, 1, 3335)));
    let net = c.network(false);
    assert_eq!(net.gateway(), v4(127, 255, 255, 255, 3333));
    assert_eq!(net.server(), None);
    assert!(!net.broadcastable());
    assert_eq!(c.rx(), v4(127, 0, 0, 1, 3333));
    let parts = c.into_parts();
    let svc = parts.5.unwrap().pop().unwrap().into_parts();
    assert_eq!(svc, ("lama".to_string(), 1234, None));
    assert_eq!(parts.4.unwrap().len(), 1);
}

#[test]
fn openssh_key_choice() {
    let private = private_key();
    let public = private.public_key().clone();

    let from_public = openssh::from(Some(public.clone()), None, None).unwrap();
    assert!(!from_public.can_sign());
    assert!(matches!(openssh::from(None, None, None), Err(KeyPairError::ParsingError)));

    let encrypted = private.encrypt(&mut OsRng, "lama").unwrap();
    assert!(matches!(openssh::from(None, Some(encrypted.clone()), None), Err(KeyPairError::NoPassphraseProvided)));
    assert!(matches!(
        openssh::from(None, Some(encrypted.clone()), Some("wrong".to_string())),
        Err(KeyPairError::WrongPassphraseProvided)
    ));
    let opened = openssh::from(None, Some(encrypted), Some("lama".to_string())).unwrap();
    assert!(opened.can_sign());

    let (pub_out, priv_out) = openssh::into(opened, Some("lama".to_string())).unwrap();
    assert_eq!(pub_out.key_data(), public.key_data());
    assert!(priv_out.unwrap().is_encrypted());

    let (_, none) = openssh::into(from_public, None).unwrap();
    assert!(none.is_none());

    let plain = KeyPair::from_private_key(private);
    let (_, kept) = openssh::into(plain, Some(String::new())).unwrap();
    assert!(!kept.unwrap().is_encrypted());
}

#[test]
fn test_sign_verify() {
    let private_key = private_key();
    let public = KeyPair::from_public_key(private_key.public_key().clone());
    let private = KeyPair::from_private_key(private_key);

    let data = Vec::from("Hu√Ætre");
    let other_data = Vec::from("8tre");

    let signature = private.try_sign(&data);
    assert!(signature.is_ok());
    let signature = signature.unwrap();

    assert!(public.verify(&data, &signature).is_ok());
    assert!(public.verify(&other_data, &signature).is_err());
}

fn server_json() -> Vec<u8> {
    b"{\"server\":null,\"gateway\":\"127.255.255.255:3333\",\"rx\":\"127.0.0.1:3333\",\"tx\":null,\"clients\":null,\"services\":null,\"signature\":null}".to_vec()
}

#[test]
fn test_sign_verify_from_into() {
    let c = client_config();
    let s = Config::new(None, v4(127, 255, 255, 255, 3333), v4(127, 0, 0, 1, 3333), None, None, None, None);

    let key = KeyPair::from_private_key(private_key());
    let mut c_signed = c.clone();
    let mut s_signed = s.clone();

    assert!(c_signed.sign(&key, &unsigned_json(3334)).is_ok());
    assert!(c_signed.verify(&key, &unsigned_json(3334)).is_ok());

    assert!(s_signed.sign(&key, &server_json()).is_ok());
    assert!(s_signed.verify(&key, &server_json()).is_ok());

    // taken apart and put back together, the signed configuration is the same
    let (server, gateway, rx, tx, clients, services, signature) = c_signed.clone().into_parts();
    let rebuilt = Config::new(server, gateway, rx, tx, clients, services, signature);
    assert_eq!(c_signed, rebuilt);
    assert!(rebuilt.verify(&key, &unsigned_json(3334)).is_ok());
    assert_ne!(c_signed, c);
}
