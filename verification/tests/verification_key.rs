use sigstore::crypto::signing_key::{EcdsaKeys, Ed25519Keys, KeyPair, RSAKeys, P256, P384};
use sigstore::crypto::spki::{
    parse_spki_der, AlgorithmIdentifier, AlgorithmParameters, SubjectPublicKeyInfo,
};
use sigstore::crypto::verification_key::CosignVerificationKey;
use sigstore::crypto::{Signature, SigningScheme};
use sigstore::errors::SigstoreError;

const PUBLIC_KEY: &str = r#"-----BEGIN PUBLIC KEY-----
MFkwEwYHKoZIzj0CAQYIKoZIzj0DAQcDQgAENptdY/l3nB0yqkXLBWkZWQwo6+cu
OSWS1X9vPavpiQOoTTGC0xX57OojUadxF1cdQmrsiReWg2Wn4FneJfa8xw==
-----END PUBLIC KEY-----"#;

const EC_PUBLIC_KEY_OID: [u8; 7] = [0x2a, 0x86, 0x48, 0xce, 0x3d, 0x02, 0x01];
const SECP256R1_OID: [u8; 8] = [0x2a, 0x86, 0x48, 0xce, 0x3d, 0x03, 0x01, 0x07];
const SECP384R1_OID: [u8; 5] = [0x2b, 0x81, 0x04, 0x00, 0x22];
const RSA_ENCRYPTION_OID: [u8; 9] = [0x2a, 0x86, 0x48, 0x86, 0xf7, 0x0d, 0x01, 0x01, 0x01];
const DSA_OID: [u8; 7] = [0x2a, 0x86, 0x48, 0xce, 0x38, 0x04, 0x01];

fn spki(oid: &[u8], parameters: Option<(u8, Vec<u8>)>, key: Vec<u8>) -> SubjectPublicKeyInfo {
    SubjectPublicKeyInfo {
        algorithm: AlgorithmIdentifier {
            oid: oid.to_vec(),
            parameters: parameters.map(|(tag, value)| AlgorithmParameters { tag, value }),
        },
        unused_bits: 0,
        subject_public_key: key,
    }
}

#[test]
fn verify_signature_success() {
    let signature = Signature::Base64Encoded(b"MEUCIQD6q/COgzOyW0YH1Dk+CCYSt4uAhm3FDHUwvPI55zwnlwIgE0ZK58ZOWpZw8YVmBapJhBqCfdPekIknimuO0xH8Jh8=");
    let verification_key =
        CosignVerificationKey::from_pem(PUBLIC_KEY.as_bytes(), &SigningScheme::default())
            .expect("Cannot create CosignVerificationKey");
    let msg = r#"{"critical":{"identity":{"docker-reference":"registry-testing.svc.lan/busybox"},"image":{"docker-manifest-digest":"sha256:f3cfc9d0dbf931d3db4685ec659b7ac68e2a578219da4aae65427886e649b06b"},"type":"cosign container image signature"},"optional":null}"#;

    let outcome = verification_key.verify_signature(signature, msg.as_bytes());
    assert!(outcome.is_ok());
}

#[test]
fn verify_signature_failure_because_wrong_msg() {
    let signature = Signature::Base64Encoded(b"MEUCIQD6q/COgzOyW0YH1Dk+CCYSt4uAhm3FDHUwvPI55zwnlwIgE0ZK58ZOWpZw8YVmBapJhBqCfdPekIknimuO0xH8Jh8=");
    let verification_key =
        CosignVerificationKey::from_pem(PUBLIC_KEY.as_bytes(), &SigningScheme::default())
            .expect("Cannot create CosignVerificationKey");
    let msg = "hello world";

    let err = verification_key
        .verify_signature(signature, msg.as_bytes())
        .expect_err("Was expecting an error");
    let found = matches!(err, SigstoreError::PublicKeyVerificationError);
    assert!(found, "Didn't get expected error, got {:?} instead", err);
}

#[test]
fn verify_signature_failure_because_wrong_signature() {
    let signature = Signature::Base64Encoded(b"this is a signature");
    let verification_key =
        CosignVerificationKey::from_pem(PUBLIC_KEY.as_bytes(), &SigningScheme::default())
            .expect("Cannot create CosignVerificationKey");
    let msg = r#"{"critical":{"identity":{"docker-reference":"registry-testing.svc.lan/busybox"},"image":{"docker-manifest-digest":"sha256:f3cfc9d0dbf931d3db4685ec659b7ac68e2a578219da4aae65427886e649b06b"},"type":"cosign container image signature"},"optional":null}"#;

    let err = verification_key
        .verify_signature(signature, msg.as_bytes())
        .expect_err("Was expecting an error");
    let found = matches!(err, SigstoreError::Base64DecodeError(_));
    assert!(found, "Didn't get expected error, got {:?} instead", err);
}

#[test]
fn verify_signature_failure_because_wrong_verification_key() {
    let signature = Signature::Base64Encoded(b"MEUCIQD6q/COgzOyW0YH1Dk+CCYSt4uAhm3FDHUwvPI55zwnlwIgE0ZK58ZOWpZw8YVmBapJhBqCfdPekIknimuO0xH8Jh8=");

    let verification_key = CosignVerificationKey::from_pem(
        r#"-----BEGIN PUBLIC KEY-----
MFkwEwYHKoZIzj0CAQYIKoZIzj0DAQcDQgAETJP9cqpUQsn2ggmJniWGjHdlsHzD
JsB89BPhZYch0U0hKANx5TY+ncrm0s8bfJxxHoenAEFhwhuXeb4PqIrtoQ==
-----END PUBLIC KEY-----"#
            .as_bytes(),
        &SigningScheme::default(),
    )
    .expect("Cannot create CosignVerificationKey");
    let msg = r#"{"critical":{"identity":{"docker-reference":"registry-testing.svc.lan/busybox"},"image":{"docker-manifest-digest":"sha256:f3cfc9d0dbf931d3db4685ec659b7ac68e2a578219da4aae65427886e649b06b"},"type":"cosign container image signature"},"optional":null}"#;

    let err = verification_key
        .verify_signature(signature, msg.as_bytes())
        .expect_err("Was expecting an error");
    let found = matches!(err, SigstoreError::PublicKeyVerificationError);
    assert!(found, "Didn't get expected error, got {:?} instead", err);
}

#[test]
fn verify_rsa_signature() {
    let signature = Signature::Base64Encoded(b"umasnfYJyLbYPjiq1wIy086Ns+CrgiMoQUSGqPqlUmtWsY0hbngJ73hPfJFrppviPKdBeuUiiwgKagBKIXLEXjwxQp4eE3szwqkKoAnR/lByb7ahLgVQ4MB6xDQaHD53MYtj7aOvd4O7FqJltVVjEn7nM/Du2tL5y3jf6lD7VfHZE8uRocRlyppt8SfTc5L12mVlZ0YlfKYkd334A4y/reCy3Yws0j356Wj7GLScMU5uR11Y2y41rSyYm5uXhTerwNFXsRcPMAmenMarCdCmt4Lf4wpcJBCU172xiK+rIhbMgkLjjA772+auSYf1E8CySVah5CD0Td5YC3y8vIIYaA==");

    let verification_key = CosignVerificationKey::from_pem(
        r#"-----BEGIN PUBLIC KEY-----
MIIBIjANBgkqhkiG9w0BAQEFAAOCAQ8AMIIBCgKCAQEAvM/dHoi6nSy7hbKHLYUr
Xy6Bv35JbdoIzny5vSFiRXApr0KS56U8PugdGmh+vd7H8YNlx2YOJxzv02Blsrcm
WDZcXjE3Xpsi/IHFfRZLOdwwR+u8MNFxwRUVzxyIzKGtbREVVfXPfb2Xc6FL5/tE
vQtUKuR6XdzSaav2RnV5IybCB09s0Np0AUbdi5EfSe4INuqgY+VFYLjvM5onbAQL
N3bFLS4Quk66Dhv93Zi6NwopwL1F07UPC5uadkyePStP3PA0OAOemj9vZADOWx5a
dsGCKISs8iphNC5mDVoLy8Ry49Ms3eQXRjVQOMco3YNf8AhsIdxDNBVN8VTDKVkE
DwIDAQAB
-----END PUBLIC KEY-----"#
            .as_bytes(),
        &SigningScheme::RSA_PKCS1_SHA256(0),
    )
    .expect("Cannot create CosignVerificationKey");
    let msg = r#"{"critical":{"identity":{"docker-reference":"registry.suse.com/suse/sle-micro/5.0/toolbox"},"image":{"docker-manifest-digest":"sha256:356631f7603526a0af827741f5fe005acf19b7ef7705a34241a91c2d47a6db5e"},"type":"cosign container image signature"},"optional":{"creator":"OBS"}}"#;

    assert!(
        verification_key
            .verify_signature(signature, msg.as_bytes())
            .is_ok()
    );
}

#[test]
fn convert_ecdsa_p256_subject_public_key_to_cosign_verification_key() {
    let key = EcdsaKeys::<P256>::new().unwrap();
    let point = parse_spki_der(&key.public_key_to_der().unwrap()).unwrap().subject_public_key;
    let info = spki(&EC_PUBLIC_KEY_OID, Some((0x06, SECP256R1_OID.to_vec())), point.clone());

    let cosign_verification_key =
        CosignVerificationKey::try_from(&info).expect("conversion failed");

    assert!(matches!(
        cosign_verification_key,
        CosignVerificationKey::ECDSA_P256_SHA256_ASN1(_)
    ));
}

#[test]
fn convert_ecdsa_p384_subject_public_key_to_cosign_verification_key() {
    let key = EcdsaKeys::<P384>::new().unwrap();
    let point = parse_spki_der(&key.public_key_to_der().unwrap()).unwrap().subject_public_key;
    let info = spki(&EC_PUBLIC_KEY_OID, Some((0x06, SECP384R1_OID.to_vec())), point);

    let cosign_verification_key =
        CosignVerificationKey::try_from(&info).expect("conversion failed");

    assert!(matches!(
        cosign_verification_key,
        CosignVerificationKey::ECDSA_P384_SHA384_ASN1(_)
    ));
}

#[test]
fn convert_rsa_subject_public_key_to_cosign_verification_key() {
    let key = RSAKeys::new(2048).unwrap();
    let public = parse_spki_der(&key.public_key_to_der().unwrap()).unwrap().subject_public_key;
    let info = spki(&RSA_ENCRYPTION_OID, Some((0x05, vec![])), public);

    let cosign_verification_key =
        CosignVerificationKey::try_from(&info).expect("conversion failed");

    assert!(matches!(
        cosign_verification_key,
        CosignVerificationKey::RSA_PKCS1_SHA256(_)
    ));
}

#[test]
fn convert_ed25519_subject_public_key_to_cosign_verification_key() {
    let key = Ed25519Keys::new().unwrap();
    let der = key.public_key_to_der().unwrap();
    let info = parse_spki_der(&der).expect("not a SubjectPublicKeyInfo");

    let cosign_verification_key =
        CosignVerificationKey::try_from(&info).expect("conversion failed");

    assert!(matches!(
        cosign_verification_key,
        CosignVerificationKey::ED25519(_)
    ));
}

#[test]
fn convert_unsupported_curve_subject_public_key_to_cosign_verification_key() {
    let info = spki(&DSA_OID, None, vec![0x02, 0x01, 0x05]);

    let err = CosignVerificationKey::try_from(&info);
    assert!(matches!(
        err,
        Err(SigstoreError::PublicKeyUnsupportedAlgorithmError(_))
    ));
}

#[test]
fn sigstore_signer_signatures_verify_under_its_verification_key() {
    let msg = b"a message to be signed";
    let signers = vec![
        EcdsaKeys::<P256>::new().unwrap().to_sigstore_signer().unwrap(),
        EcdsaKeys::<P384>::new().unwrap().to_sigstore_signer().unwrap(),
        Ed25519Keys::new().unwrap().to_sigstore_signer().unwrap(),
        RSAKeys::new(2048)
            .unwrap()
            .to_sigstore_signer(
                sigstore::crypto::signing_key::rsa::DigestAlgorithm::Sha256,
                sigstore::crypto::signing_key::rsa::PaddingScheme::PSS,
            )
            .unwrap(),
    ];
    for signer in &signers {
        let sig = signer.sign(msg).unwrap();
        let vk = CosignVerificationKey::from_sigstore_signer(signer).unwrap();
        assert!(vk.verify_signature(Signature::Raw(&sig), msg).is_ok());
        assert!(matches!(
            vk.verify_signature(Signature::Raw(&sig), b"another message"),
            Err(SigstoreError::PublicKeyVerificationError)
        ));
    }
}

#[test]
fn try_from_pem_detects_the_key_type_and_keeps_the_der() {
    let key = CosignVerificationKey::try_from_pem(PUBLIC_KEY.as_bytes()).unwrap();
    let der = pem::parse(PUBLIC_KEY).unwrap().into_contents();
    match &key {
        CosignVerificationKey::ECDSA_P256_SHA256_ASN1(bytes) => assert_eq!(bytes, &der),
        other => panic!("unexpected key {:?}", other),
    }
    let signature = Signature::Base64Encoded(b"MEUCIQD6q/COgzOyW0YH1Dk+CCYSt4uAhm3FDHUwvPI55zwnlwIgE0ZK58ZOWpZw8YVmBapJhBqCfdPekIknimuO0xH8Jh8=");
    let msg = r#"{"critical":{"identity":{"docker-reference":"registry-testing.svc.lan/busybox"},"image":{"docker-manifest-digest":"sha256:f3cfc9d0dbf931d3db4685ec659b7ac68e2a578219da4aae65427886e649b06b"},"type":"cosign container image signature"},"optional":null}"#;
    assert!(key.verify_signature(signature, msg.as_bytes()).is_ok());
    assert!(matches!(
        CosignVerificationKey::try_from_pem(b"not pem at all"),
        Err(SigstoreError::PEMParseError(_))
    ));
    let not_spki = pem::encode(&pem::Pem::new("PUBLIC KEY", vec![1u8, 2, 3]));
    match CosignVerificationKey::try_from_pem(not_spki.as_bytes()) {
        Err(SigstoreError::InvalidKeyFormat { error }) => {
            assert_eq!(error, "Failed to parse the public key.")
        }
        other => panic!("unexpected outcome {:?}", other),
    }
}

#[test]
fn ec_curve_is_read_from_the_named_curve() {
    let key = EcdsaKeys::<P256>::new().unwrap();
    let point = parse_spki_der(&key.public_key_to_der().unwrap()).unwrap().subject_public_key;
    // A compressed P-256 point (33 bytes) is still a P-256 key.
    let mut compressed = vec![0x02 | (point[64] & 1)];
    compressed.extend_from_slice(&point[1..33]);
    let info = spki(&EC_PUBLIC_KEY_OID, Some((0x06, SECP256R1_OID.to_vec())), compressed.clone());
    match CosignVerificationKey::try_from(&info) {
        Ok(CosignVerificationKey::ECDSA_P256_SHA256_ASN1(bytes)) => assert_eq!(bytes, compressed),
        other => panic!("unexpected outcome {:?}", other),
    }
    // A 65-byte point on secp256k1 is not a P-256 key.
    let secp256k1: [u8; 5] = [0x2b, 0x81, 0x04, 0x00, 0x0a];
    let info = spki(&EC_PUBLIC_KEY_OID, Some((0x06, secp256k1.to_vec())), point.clone());
    match CosignVerificationKey::try_from(&info) {
        Err(SigstoreError::PublicKeyUnsupportedAlgorithmError(m)) => {
            assert_eq!(m, "EC with size 256 is not supported")
        }
        other => panic!("unexpected outcome {:?}", other),
    }
    let der = sigstore::crypto::spki::encode_spki_der(&info).unwrap();
    match CosignVerificationKey::try_from_der(&der) {
        Err(SigstoreError::InvalidKeyFormat { error }) => assert_eq!(error, "Unsupported EC key size"),
        other => panic!("unexpected outcome {:?}", other),
    }
    let info = spki(&EC_PUBLIC_KEY_OID, Some((0x06, SECP256R1_OID.to_vec())), compressed);
    let der = sigstore::crypto::spki::encode_spki_der(&info).unwrap();
    match CosignVerificationKey::try_from_der(&der) {
        Ok(CosignVerificationKey::ECDSA_P256_SHA256_ASN1(bytes)) => assert_eq!(bytes, der),
        other => panic!("unexpected outcome {:?}", other),
    }
}

#[test]
fn public_keys_are_spki_for_all_key_types() {
    let rsa = RSAKeys::new(2048).unwrap();
    let der = rsa.public_key_to_der().unwrap();
    match CosignVerificationKey::try_from_der(&der) {
        Ok(CosignVerificationKey::RSA_PKCS1_SHA256(bytes)) => assert_eq!(bytes, der),
        other => panic!("unexpected outcome {:?}", other),
    }
    let ed = Ed25519Keys::new().unwrap();
    let der = ed.public_key_to_der().unwrap();
    assert!(matches!(
        CosignVerificationKey::try_from_der(&der),
        Ok(CosignVerificationKey::ED25519(_))
    ));
}

#[test]
fn from_der_requires_a_subject_public_key_info() {
    for scheme in [
        SigningScheme::ECDSA_P256_SHA256_ASN1,
        SigningScheme::RSA_PKCS1_SHA256(0),
        SigningScheme::ED25519,
    ] {
        match CosignVerificationKey::from_der(b"", &scheme) {
            Err(SigstoreError::InvalidKeyFormat { error }) => {
                assert_eq!(error, "Failed to parse the public key.")
            }
            other => panic!("unexpected outcome {:?}", other),
        }
        assert!(CosignVerificationKey::from_der(&[4u8; 65], &scheme).is_err());
    }
    let der = pem::parse(PUBLIC_KEY).unwrap().into_contents();
    match CosignVerificationKey::from_der(&der, &SigningScheme::ECDSA_P256_SHA256_ASN1) {
        Ok(CosignVerificationKey::ECDSA_P256_SHA256_ASN1(bytes)) => assert_eq!(bytes, der),
        other => panic!("unexpected outcome {:?}", other),
    }
    let not_spki = pem::encode(&pem::Pem::new("PUBLIC KEY", vec![1u8, 2, 3]));
    assert!(matches!(
        CosignVerificationKey::from_pem(not_spki.as_bytes(), &SigningScheme::ED25519),
        Err(SigstoreError::InvalidKeyFormat { .. })
    ));
}
