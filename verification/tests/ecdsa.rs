use sigstore::crypto::signing_key::{EcdsaCurve, EcdsaKeys, EcdsaSigner, KeyPair, Signer, P256, P384};
use sigstore::crypto::verification_key::CosignVerificationKey;
use sigstore::crypto::{Signature, SigningScheme};
use sigstore::errors::SigstoreError;

const MESSAGE: &str = r#"{
    "critical": {
        "identity": {
            "docker-reference": "registry-testing.svc.lan/busybox"
        },
        "image": {
            "docker-manifest-digest": "sha256:f3cfc9d0dbf931d3db4685ec659b7ac68e2a578219da4aae65427886e649b06b"
        },
        "type": "cosign container image signature"
    },
    "optional": null
}"#;

#[test]
fn ecdsa_generate_and_sign() {
    let key = EcdsaKeys::<P256>::new().expect("Failed to create ECDSA key");
    let signer = EcdsaSigner::<P256>::from_ecdsa_keys(&key).expect("Failed to create signer");

    let sig = signer.sign(MESSAGE.as_bytes()).expect("Failed to sign");
    assert!(!sig.is_empty());
}

#[test]
fn ecdsa_to_and_from_pem() {
    let key = EcdsaKeys::<P256>::new().expect("create ecdsa keys failed");
    let pem = key.private_key_to_pem().expect("export to PEM failed");
    let key2 = EcdsaKeys::<P256>::from_pem(pem.as_bytes()).expect("import from PEM failed");

    let pub1 = key.public_key_to_der().unwrap();
    let pub2 = key2.public_key_to_der().unwrap();
    assert_eq!(pub1, pub2);
}

#[test]
fn ecdsa_to_and_from_der() {
    let key = EcdsaKeys::<P256>::new().expect("create ecdsa keys failed");
    let der = key.private_key_to_der().expect("export to DER failed");
    let key2 = EcdsaKeys::<P256>::from_der(&der).expect("import from DER failed");

    let pub1 = key.public_key_to_der().unwrap();
    let pub2 = key2.public_key_to_der().unwrap();
    assert_eq!(pub1, pub2);
}

#[test]
fn ecdsa_public_keys_are_spki() {
    let p256 = EcdsaKeys::<P256>::new().unwrap();
    let p384 = EcdsaKeys::<P384>::new().unwrap();
    let pub256 = p256.public_key_to_der().unwrap();
    let pub384 = p384.public_key_to_der().unwrap();
    assert_eq!(pub256.len(), 91);
    assert_eq!(pub384.len(), 120);
    assert_eq!(pub256[0], 0x30);
    assert!(matches!(
        CosignVerificationKey::try_from_der(&pub256).unwrap(),
        CosignVerificationKey::ECDSA_P256_SHA256_ASN1(_)
    ));
    assert!(matches!(
        CosignVerificationKey::try_from_der(&pub384).unwrap(),
        CosignVerificationKey::ECDSA_P384_SHA384_ASN1(_)
    ));
}

#[test]
fn ecdsa_curve_names() {
    assert_eq!(P256::curve_name(), "P-256");
    assert_eq!(P384::curve_name(), "P-384");
}

#[test]
fn ecdsa_sign_then_verify_p256() {
    let key = EcdsaKeys::<P256>::new().unwrap();
    let signer = EcdsaSigner::<P256>::from_ecdsa_keys(&key).unwrap();
    let sig = signer.sign(MESSAGE.as_bytes()).unwrap();
    let vk = key.to_verification_key(&SigningScheme::ECDSA_P256_SHA256_ASN1).unwrap();
    assert!(matches!(vk, CosignVerificationKey::ECDSA_P256_SHA256_ASN1(_)));
    vk.verify_signature(Signature::Raw(&sig), MESSAGE.as_bytes()).expect("verification failed");
    let err = vk.verify_signature(Signature::Raw(&sig), b"another message").unwrap_err();
    assert!(matches!(err, SigstoreError::PublicKeyVerificationError));
}

#[test]
fn ecdsa_sign_then_verify_p384_via_sigstore_signer() {
    let key = EcdsaKeys::<P384>::new().unwrap();
    let signer = key.to_sigstore_signer().unwrap();
    let vk = CosignVerificationKey::from_sigstore_signer(&signer).unwrap();
    match &vk {
        CosignVerificationKey::ECDSA_P384_SHA384_ASN1(bytes) => {
            assert_eq!(bytes, &key.public_key_to_der().unwrap())
        }
        other => panic!("unexpected key {:?}", other),
    }
    let sig = EcdsaSigner::<P384>::from_ecdsa_keys(&key).unwrap().sign(MESSAGE.as_bytes()).unwrap();
    assert!(vk.verify_signature(Signature::Raw(&sig), MESSAGE.as_bytes()).is_ok());
}

#[test]
fn ecdsa_public_key_pem_round_trip() {
    let key = EcdsaKeys::<P256>::new().unwrap();
    let pem = key.public_key_to_pem().unwrap();
    assert!(pem.starts_with("-----BEGIN PUBLIC KEY-----"));
    let parsed = pem::parse(pem.as_bytes()).unwrap();
    assert_eq!(parsed.tag(), "PUBLIC KEY");
    assert_eq!(parsed.contents(), key.public_key_to_der().unwrap().as_slice());
}

#[test]
fn ecdsa_from_der_rejects_garbage() {
    let err = EcdsaKeys::<P256>::from_der(b"not a key").unwrap_err();
    match err {
        SigstoreError::PKCS8Error(m) => {
            assert!(m.starts_with("Convert from pkcs8 der to ecdsa private key failed: "))
        }
        other => panic!("unexpected error {:?}", other),
    }
}

#[test]
fn ecdsa_from_der_rejects_other_curve() {
    let key = EcdsaKeys::<P384>::new().unwrap();
    let der = key.private_key_to_der().unwrap();
    assert!(matches!(EcdsaKeys::<P256>::from_der(&der), Err(SigstoreError::PKCS8Error(_))));
}

#[test]
fn ecdsa_from_pem_rejects_wrong_label() {
    let key = EcdsaKeys::<P256>::new().unwrap();
    let der = key.private_key_to_der().unwrap();
    let text = pem::encode(&pem::Pem::new("EC PRIVATE KEY", der.to_vec()));
    match EcdsaKeys::<P256>::from_pem(text.as_bytes()) {
        Err(SigstoreError::PrivateKeyDecryptError(m)) => {
            assert_eq!(m, "Unsupported pem tag EC PRIVATE KEY")
        }
        other => panic!("unexpected result {:?}", other.map(|_| ())),
    }
}

#[test]
fn ecdsa_from_pem_rejects_non_utf8_and_non_pem() {
    assert!(matches!(
        EcdsaKeys::<P256>::from_pem(&[0xff, 0xfe, 0x00]),
        Err(SigstoreError::Utf8Error(_))
    ));
    assert!(matches!(
        EcdsaKeys::<P256>::from_pem(b"no pem here"),
        Err(SigstoreError::PEMParseError(_))
    ));
}

#[test]
fn ecdsa_keys_clone_and_signer_keep_the_key() {
    let key = EcdsaKeys::<P256>::new().unwrap();
    let copy = key.clone();
    assert_eq!(key.public_key_to_der().unwrap(), copy.public_key_to_der().unwrap());
    let signer = EcdsaSigner::<P256>::from_ecdsa_keys(&key).unwrap();
    assert_eq!(
        signer.ecdsa_keys().private_key_to_der().unwrap().to_vec(),
        key.private_key_to_der().unwrap().to_vec()
    );
    assert_eq!(
        signer.key_pair().public_key_to_der().unwrap(),
        key.public_key_to_der().unwrap()
    );
}
