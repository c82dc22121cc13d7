use sigstore::crypto::signing_key::{Ed25519Keys, Ed25519Signer, KeyPair, SigStoreSigner, Signer};
use sigstore::crypto::verification_key::CosignVerificationKey;
use sigstore::crypto::{Signature, SigningScheme};
use sigstore::errors::SigstoreError;

const MESSAGE: &str = r#"{
    "critical": {
        "identity": {
            "docker-reference": "registry-testing.svc.lan/busybox"
        },
        "image": {
            "docker-manifest-digest": "sha256:f3cfc9d0dbf931d3db4685ec659b7ac68e2a578219da4aae65427886e649b06b"
        },
        "type": "cosign container image signature"
    },
    "optional": null
}"#;

#[test]
fn ed25519_generate_and_sign() {
    let key = Ed25519Keys::new().expect("Failed to create Ed25519 key");
    let signer = Ed25519Signer::from_ed25519_keys(&key).expect("Failed to create signer");

    let sig = signer.sign(MESSAGE.as_bytes()).expect("Failed to sign");
    assert!(!sig.is_empty());
}

#[test]
fn ed25519_to_and_from_pem() {
    let key = Ed25519Keys::new().expect("create ed25519 keys failed");
    let pem = key.private_key_to_pem().expect("export to PEM failed");
    let key2 = Ed25519Keys::from_pem(pem.as_bytes()).expect("import from PEM failed");

    let pub1 = key.public_key_to_der().unwrap();
    let pub2 = key2.public_key_to_der().unwrap();
    assert_eq!(pub1, pub2);
}

#[test]
fn ed25519_to_and_from_der() {
    let key = Ed25519Keys::new().expect("create ed25519 keys failed");
    let der = key.private_key_to_der().expect("export to DER failed");
    let key2 = Ed25519Keys::from_der(&der).expect("import from DER failed");

    let pub1 = key.public_key_to_der().unwrap();
    let pub2 = key2.public_key_to_der().unwrap();
    assert_eq!(pub1, pub2);
}

#[test]
fn ed25519_signatures_are_deterministic_and_64_bytes() {
    let key = Ed25519Keys::new().unwrap();
    let signer = Ed25519Signer::from_ed25519_keys(&key).unwrap();
    let s1 = signer.sign(MESSAGE.as_bytes()).unwrap();
    let s2 = signer.sign(MESSAGE.as_bytes()).unwrap();
    assert_eq!(s1.len(), 64);
    assert_eq!(s1, s2);
}

#[test]
fn ed25519_public_key_is_spki_der() {
    let key = Ed25519Keys::new().unwrap();
    let der = key.public_key_to_der().unwrap();
    // SEQUENCE { SEQUENCE { OID 1.3.101.112 }, BIT STRING (33 bytes) }
    assert_eq!(der.len(), 44);
    assert_eq!(&der[..12], &[0x30, 0x2a, 0x30, 0x05, 0x06, 0x03, 0x2b, 0x65, 0x70, 0x03, 0x21, 0x00]);
}

#[test]
fn ed25519_verification_key_ignores_scheme() {
    let key = Ed25519Keys::new().unwrap();
    let vk = key.to_verification_key(&SigningScheme::RSA_PSS_SHA256(0)).unwrap();
    match vk {
        CosignVerificationKey::ED25519(bytes) => assert_eq!(bytes, key.public_key_to_der().unwrap()),
        other => panic!("unexpected key {:?}", other),
    }
}

#[test]
fn ed25519_sign_then_verify_via_sigstore_signer() {
    let key = Ed25519Keys::new().unwrap();
    let signer = key.to_sigstore_signer().unwrap();
    assert!(matches!(signer, SigStoreSigner::ED25519(_)));
    let vk = CosignVerificationKey::from_sigstore_signer(&signer).unwrap();
    let sig = Ed25519Signer::from_ed25519_keys(&key).unwrap().sign(MESSAGE.as_bytes()).unwrap();
    vk.verify_signature(Signature::Raw(&sig), MESSAGE.as_bytes()).expect("verification failed");
    let vk2 = CosignVerificationKey::from_key_pair(&key, &SigningScheme::ED25519).unwrap();
    assert!(vk2.verify_signature(Signature::Raw(&sig), MESSAGE.as_bytes()).is_ok());
}

#[test]
fn ed25519_from_der_rejects_garbage_and_copy_keeps_key() {
    match Ed25519Keys::from_der(b"garbage").unwrap_err() {
        SigstoreError::PKCS8Error(m) => {
            assert!(m.starts_with("Convert from pkcs8 der to ed25519 private key failed: "))
        }
        other => panic!("unexpected error {:?}", other),
    }
    let key = Ed25519Keys::new().unwrap();
    let copy = Ed25519Keys::from_ed25519key(&key).unwrap();
    assert_eq!(copy.public_key_to_der().unwrap(), key.public_key_to_der().unwrap());
    let signer = Ed25519Signer::from_ed25519_keys(&key).unwrap();
    assert_eq!(
        signer.ed25519_keys().public_key_to_der().unwrap(),
        signer.key_pair().public_key_to_der().unwrap()
    );
}

#[test]
fn ed25519_generated_key_round_trips_and_signs() {
    let key = Ed25519Keys::new().unwrap();
    let der = key.private_key_to_der().unwrap();
    let from_der = Ed25519Keys::from_der(&der).unwrap();
    assert_eq!(from_der.public_key_to_der().unwrap(), key.public_key_to_der().unwrap());
    let pem = key.private_key_to_pem().unwrap();
    let from_pem = Ed25519Keys::from_pem(pem.as_bytes()).unwrap();
    assert_eq!(from_pem.public_key_to_der().unwrap(), key.public_key_to_der().unwrap());
    let copy = Ed25519Keys::from_ed25519key(&key).unwrap();
    assert_eq!(copy.public_key_to_der().unwrap(), key.public_key_to_der().unwrap());
    let signer = Ed25519Signer::from_ed25519_keys(&key).unwrap();
    let s1 = signer.sign(MESSAGE.as_bytes()).unwrap();
    assert_eq!(s1.len(), 64);
    assert_eq!(signer.sign(MESSAGE.as_bytes()).unwrap(), s1);
}
