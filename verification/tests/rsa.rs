use sigstore::crypto::signing_key::rsa::{DigestAlgorithm, PaddingScheme, RSASigner, DEFAULT_KEY_SIZE};
use sigstore::crypto::signing_key::{KeyPair, RSAKeys, SigStoreSigner, Signer};
use sigstore::crypto::verification_key::CosignVerificationKey;
use sigstore::crypto::{Signature, SigningScheme};
use sigstore::errors::SigstoreError;

const MESSAGE: &str = r#"{
    "critical": {
        "identity": {
            "docker-reference": "registry-testing.svc.lan/busybox"
        },
        "image": {
            "docker-manifest-digest": "sha256:f3cfc9d0dbf931d3db4685ec659b7ac68e2a578219da4aae65427886e649b06b"
        },
        "type": "cosign container image signature"
    },
    "optional": null
}"#;

const KEY_SIZE: usize = 2048;

#[test]
fn rsa_generate_and_sign() {
    let key = RSAKeys::new(KEY_SIZE).expect("Failed to create RSA key");
    let signer = RSASigner::from_rsa_keys(&key, DigestAlgorithm::Sha256, PaddingScheme::PSS);

    let sig = signer.sign(MESSAGE.as_bytes()).expect("Failed to sign");
    assert!(!sig.is_empty());
}

#[test]
fn rsa_to_and_from_pem() {
    let key = RSAKeys::new(KEY_SIZE).expect("create rsa keys failed");
    let pem = key.private_key_to_pem().expect("export to PEM failed");
    let key2 = RSAKeys::from_pem(pem.as_bytes()).expect("import from PEM failed");

    let pub1 = key.public_key_to_der().unwrap();
    let pub2 = key2.public_key_to_der().unwrap();
    assert_eq!(pub1, pub2);
}

#[test]
fn rsa_to_and_from_der() {
    let key = RSAKeys::new(KEY_SIZE).expect("create rsa keys failed");
    let der = key.private_key_to_der().expect("export to DER failed");
    let key2 = RSAKeys::from_der(&der).expect("import from DER failed");

    let pub1 = key.public_key_to_der().unwrap();
    let pub2 = key2.public_key_to_der().unwrap();
    assert_eq!(pub1, pub2);
}

#[test]
fn rsa_pss_sha256() {
    let rsa_keys = RSAKeys::new(DEFAULT_KEY_SIZE).expect("RSA keys generated failed.");
    let signer = RSASigner::from_rsa_keys(&rsa_keys, DigestAlgorithm::Sha256, PaddingScheme::PSS);
    let sig = signer.sign(MESSAGE.as_bytes()).expect("sign failed.");
    let vk = rsa_keys
        .to_verification_key(&SigningScheme::RSA_PSS_SHA256(0))
        .expect("derive CosignVerificationKey failed.");
    let signature = Signature::Raw(&sig);
    vk.verify_signature(signature, MESSAGE.as_bytes())
        .expect("can not verify the signature.");
}

#[test]
fn rsa_pkcs1_sha256() {
    let rsa_keys = RSAKeys::new(DEFAULT_KEY_SIZE).expect("RSA keys generated failed.");
    let signer =
        RSASigner::from_rsa_keys(&rsa_keys, DigestAlgorithm::Sha256, PaddingScheme::PKCS1v15);
    let sig = signer.sign(MESSAGE.as_bytes()).expect("sign failed.");
    let vk = rsa_keys
        .to_verification_key(&SigningScheme::RSA_PKCS1_SHA256(0))
        .expect("derive CosignVerificationKey failed.");
    let signature = Signature::Raw(&sig);
    vk.verify_signature(signature, MESSAGE.as_bytes())
        .expect("can not verify the signature.");
}

#[test]
fn rsa_rejects_unsupported_key_size() {
    match RSAKeys::new(1024) {
        Err(SigstoreError::PKCS8Error(m)) => assert_eq!(m, "Unsupported RSA key size: 1024"),
        other => panic!("unexpected result {:?}", other.map(|_| ())),
    }
    assert!(matches!(RSAKeys::new(0), Err(SigstoreError::PKCS8Error(m)) if m == "Unsupported RSA key size: 0"));
}

#[test]
fn rsa_signature_has_modulus_length_and_all_schemes_verify() {
    let key = RSAKeys::new(KEY_SIZE).unwrap();
    let cases = [
        (DigestAlgorithm::Sha256, PaddingScheme::PSS, SigningScheme::RSA_PSS_SHA256(0)),
        (DigestAlgorithm::Sha384, PaddingScheme::PSS, SigningScheme::RSA_PSS_SHA384(0)),
        (DigestAlgorithm::Sha512, PaddingScheme::PSS, SigningScheme::RSA_PSS_SHA512(0)),
        (DigestAlgorithm::Sha256, PaddingScheme::PKCS1v15, SigningScheme::RSA_PKCS1_SHA256(0)),
        (DigestAlgorithm::Sha384, PaddingScheme::PKCS1v15, SigningScheme::RSA_PKCS1_SHA384(0)),
        (DigestAlgorithm::Sha512, PaddingScheme::PKCS1v15, SigningScheme::RSA_PKCS1_SHA512(0)),
    ];
    for (digest, padding, scheme) in cases {
        let signer = RSASigner::from_rsa_keys(&key, digest, padding);
        let sig = signer.sign(MESSAGE.as_bytes()).unwrap();
        assert_eq!(sig.len(), 256);
        let vk = signer.to_verification_key().unwrap();
        assert!(vk.verify_signature(Signature::Raw(&sig), MESSAGE.as_bytes()).is_ok());
        let vk2 = key.to_verification_key(&scheme).unwrap();
        assert!(vk2.verify_signature(Signature::Raw(&sig), MESSAGE.as_bytes()).is_ok());
    }
}

#[test]
fn rsa_signer_kinds_match_schemes() {
    let key = RSAKeys::new(KEY_SIZE).unwrap();
    let signer = RSASigner::from_rsa_keys(&key, DigestAlgorithm::Sha384, PaddingScheme::PKCS1v15);
    assert!(matches!(signer, RSASigner::RSA_PKCS1_SHA384(_)));
    assert!(matches!(
        signer.to_verification_key().unwrap(),
        CosignVerificationKey::RSA_PKCS1_SHA384(_)
    ));
    let wrapped = key.to_sigstore_signer(DigestAlgorithm::Sha512, PaddingScheme::PSS).unwrap();
    assert!(matches!(wrapped, SigStoreSigner::RSA_PSS_SHA512(RSASigner::RSA_PSS_SHA512(_))));
    let vk = CosignVerificationKey::from_sigstore_signer(&wrapped).unwrap();
    match vk {
        CosignVerificationKey::RSA_PSS_SHA512(bytes) => assert_eq!(bytes, key.public_key_to_der().unwrap()),
        other => panic!("unexpected key {:?}", other),
    }
    assert_eq!(
        signer.rsa_keys().public_key_to_der().unwrap(),
        signer.key_pair().public_key_to_der().unwrap()
    );
}

#[test]
fn rsa_copy_and_labels() {
    let key = RSAKeys::new(KEY_SIZE).unwrap();
    let copy = RSAKeys::from_rsa_privatekey_key(&key).unwrap();
    assert_eq!(copy.public_key_to_der().unwrap(), key.public_key_to_der().unwrap());
    let der = key.private_key_to_der().unwrap();
    let text = pem::encode(&pem::Pem::new("RSA PRIVATE KEY", der.to_vec()));
    let key2 = RSAKeys::from_pem(text.as_bytes()).unwrap();
    assert_eq!(key2.public_key_to_der().unwrap(), key.public_key_to_der().unwrap());
    let text = pem::encode(&pem::Pem::new("ENCRYPTED SIGSTORE PRIVATE KEY", der.to_vec()));
    assert!(matches!(RSAKeys::from_pem(text.as_bytes()), Err(SigstoreError::PrivateKeyDecryptError(_))));
    match RSAKeys::from_der(b"xyz").unwrap_err() {
        SigstoreError::PKCS8Error(m) => {
            assert!(m.starts_with("Convert from pkcs8 der to rsa private key failed: "))
        }
        other => panic!("unexpected error {:?}", other),
    }
}

#[test]
fn rsa_key_size_and_pkcs1_determinism() {
    for bits in [2048usize, 3072] {
        let key = RSAKeys::new(bits).unwrap();
        let signer = RSASigner::from_rsa_keys(&key, DigestAlgorithm::Sha256, PaddingScheme::PKCS1v15);
        let s1 = signer.sign(MESSAGE.as_bytes()).unwrap();
        let s2 = signer.sign(MESSAGE.as_bytes()).unwrap();
        assert_eq!(s1.len(), bits / 8);
        assert_eq!(s1, s2);
        let pss = RSASigner::from_rsa_keys(&key, DigestAlgorithm::Sha256, PaddingScheme::PSS);
        assert_eq!(pss.sign(MESSAGE.as_bytes()).unwrap().len(), bits / 8);
    }
}
