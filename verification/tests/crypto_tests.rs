//! Sign/verify round trips through the real crypto crates, and the field
//! shapes of every generated record.

use base64::engine::general_purpose::URL_SAFE_NO_PAD;
use base64::Engine as _;
use jwks_service::crypto::{generate_ec_jwk_data, generate_eddsa_jwk_data, generate_rsa_jwk_data};
use jwks_service::errors::JwkError;
use jwks_service::models::JwkData;
use openssl::bn::{BigNum, BigNumContext};
use openssl::ec::{EcGroup, EcKey, EcPoint};
use openssl::nid::Nid;
use openssl::pkey::PKey;
use openssl::rsa::Rsa;
use openssl::sign::{Signer, Verifier};
use sha1::{Digest, Sha1};

#[test]
fn test_is_rsa_key_valid_rs256() {
    let jwk: JwkData = generate_rsa_jwk_data(1024, "RS256").unwrap();

    let control_data = "CONTROL_TEXT";

    let pkey_private = {
        let new_private_key = URL_SAFE_NO_PAD.decode(jwk.private_key.clone()).unwrap();
        PKey::private_key_from_pkcs8(&*new_private_key)
    }
    .unwrap();

    let mut signer = Signer::new_without_digest(&pkey_private).unwrap();
    let signature = signer.sign_oneshot_to_vec(control_data.as_bytes()).unwrap();

    let jwk_n = BigNum::from_slice(&*URL_SAFE_NO_PAD.decode(jwk.n.unwrap()).unwrap()).unwrap();
    let jwk_e = BigNum::from_slice(&*URL_SAFE_NO_PAD.decode(jwk.e.unwrap()).unwrap()).unwrap();

    let rsa_public_key = Rsa::from_public_components(jwk_n, jwk_e).unwrap();
    let pkey_public = PKey::from_rsa(rsa_public_key).unwrap();

    let mut verifier = Verifier::new_without_digest(&pkey_public).unwrap();
    let result = verifier.verify_oneshot(&signature, control_data.as_bytes()).unwrap();

    assert_eq!(result, true);
}

#[test]
fn test_is_rsa_key_valid_rs384() {
    let jwk: JwkData = generate_rsa_jwk_data(1024, "RS384").unwrap();

    let control_data = "CONTROL_TEXT";

    let pkey_private = {
        let new_private_key = URL_SAFE_NO_PAD.decode(jwk.private_key.clone()).unwrap();
        PKey::private_key_from_pkcs8(&*new_private_key)
    }
    .unwrap();

    let mut signer = Signer::new_without_digest(&pkey_private).unwrap();
    let signature = signer.sign_oneshot_to_vec(control_data.as_bytes()).unwrap();

    let jwk_n = BigNum::from_slice(&*URL_SAFE_NO_PAD.decode(jwk.n.unwrap()).unwrap()).unwrap();
    let jwk_e = BigNum::from_slice(&*URL_SAFE_NO_PAD.decode(jwk.e.unwrap()).unwrap()).unwrap();

    let rsa_public_key = Rsa::from_public_components(jwk_n, jwk_e).unwrap();
    let pkey_public = PKey::from_rsa(rsa_public_key).unwrap();

    let mut verifier = Verifier::new_without_digest(&pkey_public).unwrap();
    let result = verifier.verify_oneshot(&signature, control_data.as_bytes()).unwrap();

    assert_eq!(result, true);
}

#[test]
fn test_is_rsa_key_valid_rs512() {
    let jwk: JwkData = generate_rsa_jwk_data(1024, "RS512").unwrap();

    let control_data = "CONTROL_TEXT";

    let pkey_private = {
        let new_private_key = URL_SAFE_NO_PAD.decode(jwk.private_key.clone()).unwrap();
        PKey::private_key_from_pkcs8(&*new_private_key)
    }
    .unwrap();

    let mut signer = Signer::new_without_digest(&pkey_private).unwrap();
    let signature = signer.sign_oneshot_to_vec(control_data.as_bytes()).unwrap();

    let jwk_n = BigNum::from_slice(&*URL_SAFE_NO_PAD.decode(jwk.n.unwrap()).unwrap()).unwrap();
    let jwk_e = BigNum::from_slice(&*URL_SAFE_NO_PAD.decode(jwk.e.unwrap()).unwrap()).unwrap();

    let rsa_public_key = Rsa::from_public_components(jwk_n, jwk_e).unwrap();
    let pkey_public = PKey::from_rsa(rsa_public_key).unwrap();

    let mut verifier = Verifier::new_without_digest(&pkey_public).unwrap();
    let result = verifier.verify_oneshot(&signature, control_data.as_bytes()).unwrap();

    assert_eq!(result, true);
}

#[test]
fn test_is_ec_key_valid_es256() {
    let jwk: JwkData = generate_ec_jwk_data("ES256").unwrap();

    let control_data = "CONTROL_TEXT";

    let pkey_private = {
        let new_private_key = URL_SAFE_NO_PAD.decode(jwk.private_key.clone()).unwrap();
        PKey::private_key_from_pkcs8(&*new_private_key)
    }
    .unwrap();

    let mut signer = Signer::new_without_digest(&pkey_private).unwrap();
    let signature = signer.sign_oneshot_to_vec(control_data.as_bytes()).unwrap();

    let group = EcGroup::from_curve_name(Nid::X9_62_PRIME256V1).unwrap();

    let x_bytes = URL_SAFE_NO_PAD.decode(jwk.x.unwrap()).unwrap();
    let y_bytes = URL_SAFE_NO_PAD.decode(jwk.y.unwrap()).unwrap();

    let x_bn = BigNum::from_slice(&*x_bytes).unwrap();
    let y_bn = BigNum::from_slice(&*y_bytes).unwrap();

    let mut ctx = BigNumContext::new().unwrap();
    let mut point = EcPoint::new(&group).unwrap();
    point.set_affine_coordinates_gfp(&group, &x_bn, &y_bn, &mut ctx).unwrap();

    let ec_key_public = EcKey::from_public_key(&group, &point).unwrap();

    let pkey_public = PKey::from_ec_key(ec_key_public).unwrap();

    let mut verifier = Verifier::new_without_digest(&pkey_public).unwrap();
    let result = verifier.verify_oneshot(&signature, control_data.as_bytes()).unwrap();

    assert_eq!(result, true);
}

#[test]
fn test_is_ec_key_valid_es384() {
    let jwk: JwkData = generate_ec_jwk_data("ES384").unwrap();

    let control_data = "CONTROL_TEXT";

    let pkey_private = {
        let new_private_key = URL_SAFE_NO_PAD.decode(jwk.private_key.clone()).unwrap();
        PKey::private_key_from_pkcs8(&*new_private_key)
    }
    .unwrap();

    let mut signer = Signer::new_without_digest(&pkey_private).unwrap();
    let signature = signer.sign_oneshot_to_vec(control_data.as_bytes()).unwrap();

    let group = EcGroup::from_curve_name(Nid::SECP384R1).unwrap();

    let x_bytes = URL_SAFE_NO_PAD.decode(jwk.x.unwrap()).unwrap();
    let y_bytes = URL_SAFE_NO_PAD.decode(jwk.y.unwrap()).unwrap();

    let x_bn = BigNum::from_slice(&*x_bytes).unwrap();
    let y_bn = BigNum::from_slice(&*y_bytes).unwrap();

    let mut ctx = BigNumContext::new().unwrap();
    let mut point = EcPoint::new(&group).unwrap();
    point.set_affine_coordinates_gfp(&group, &x_bn, &y_bn, &mut ctx).unwrap();

    let ec_key_public = EcKey::from_public_key(&group, &point).unwrap();

    let pkey_public = PKey::from_ec_key(ec_key_public).unwrap();

    let mut verifier = Verifier::new_without_digest(&pkey_public).unwrap();
    let result = verifier.verify_oneshot(&signature, control_data.as_bytes()).unwrap();

    assert_eq!(result, true);
}

#[test]
fn test_is_ec_key_valid_es512() {
    let jwk: JwkData = generate_ec_jwk_data("ES512").unwrap();

    let control_data = "CONTROL_TEXT";

    let pkey_private = {
        let new_private_key = URL_SAFE_NO_PAD.decode(jwk.private_key.clone()).unwrap();
        PKey::private_key_from_pkcs8(&*new_private_key)
    }
    .unwrap();

    let mut signer = Signer::new_without_digest(&pkey_private).unwrap();
    let signature = signer.sign_oneshot_to_vec(control_data.as_bytes()).unwrap();

    let group = EcGroup::from_curve_name(Nid::SECP521R1).unwrap();

    let x_bytes = URL_SAFE_NO_PAD.decode(jwk.x.unwrap()).unwrap();
    let y_bytes = URL_SAFE_NO_PAD.decode(jwk.y.unwrap()).unwrap();

    let x_bn = BigNum::from_slice(&*x_bytes).unwrap();
    let y_bn = BigNum::from_slice(&*y_bytes).unwrap();

    let mut ctx = BigNumContext::new().unwrap();
    let mut point = EcPoint::new(&group).unwrap();
    point.set_affine_coordinates_gfp(&group, &x_bn, &y_bn, &mut ctx).unwrap();

    let ec_key_public = EcKey::from_public_key(&group, &point).unwrap();

    let pkey_public = PKey::from_ec_key(ec_key_public).unwrap();

    let mut verifier = Verifier::new_without_digest(&pkey_public).unwrap();
    let result = verifier.verify_oneshot(&signature, control_data.as_bytes()).unwrap();

    assert_eq!(result, true);
}

#[test]
fn test_is_eddsa_key_valid_ed25519() {
    let jwk: JwkData = generate_eddsa_jwk_data("Ed25519").unwrap();

    let control_data = "CONTROL_TEXT";

    let pkey_private = {
        let new_private_key = URL_SAFE_NO_PAD.decode(jwk.private_key.clone()).unwrap();
        PKey::private_key_from_pkcs8(&*new_private_key)
    }
    .unwrap();

    let mut signer = Signer::new_without_digest(&pkey_private).unwrap();
    let signature = signer.sign_oneshot_to_vec(control_data.as_bytes()).unwrap();

    let jwk_x = &*URL_SAFE_NO_PAD.decode(jwk.x.unwrap()).unwrap();

    let pkey_public = PKey::public_key_from_raw_bytes(&jwk_x, openssl::pkey::Id::ED25519).unwrap();

    let mut verifier = Verifier::new_without_digest(&pkey_public).unwrap();
    let result = verifier.verify_oneshot(&signature, control_data.as_bytes()).unwrap();

    assert_eq!(result, true);
}

#[test]
fn test_is_eddsa_key_valid_ed448() {
    let jwk: JwkData = generate_eddsa_jwk_data("Ed448").unwrap();

    let control_data = "CONTROL_TEXT";

    let pkey_private = {
        let new_private_key = URL_SAFE_NO_PAD.decode(jwk.private_key.clone()).unwrap();
        PKey::private_key_from_pkcs8(&*new_private_key)
    }
    .unwrap();

    let mut signer = Signer::new_without_digest(&pkey_private).unwrap();
    let signature = signer.sign_oneshot_to_vec(control_data.as_bytes()).unwrap();

    let jwk_x = &*URL_SAFE_NO_PAD.decode(jwk.x.unwrap()).unwrap();

    let pkey_public = PKey::public_key_from_raw_bytes(&jwk_x, openssl::pkey::Id::ED448).unwrap();

    let mut verifier = Verifier::new_without_digest(&pkey_public).unwrap();
    let result = verifier.verify_oneshot(&signature, control_data.as_bytes()).unwrap();

    assert_eq!(result, true);
}

#[test]
fn test_rsa_field_presence_and_exponent() {
    let jwk = generate_rsa_jwk_data(1024, "RS256").unwrap();

    assert_eq!(jwk.kty, "RSA");
    assert_eq!(jwk.alg, "RS256");
    assert_eq!(jwk.kid.len(), 36);
    assert!(jwk.crv.is_none());
    assert!(jwk.x.is_none());
    assert!(jwk.y.is_none());
    assert!(jwk.x5t.is_some());

    // The default public exponent 65537 is the bytes [1, 0, 1]: "AQAB".
    assert_eq!(jwk.e.unwrap(), "AQAB");

    // A 1024-bit modulus fills exactly 128 bytes.
    let n_bytes = URL_SAFE_NO_PAD.decode(jwk.n.unwrap()).unwrap();
    assert_eq!(n_bytes.len(), 128);

    // Exactly one certificate, no chain.
    assert_eq!(jwk.x5c.unwrap().len(), 1);

    // No lifecycle data is assigned by the generator.
    assert_eq!(jwk.id, 0);
    assert_eq!(jwk.created_at, 0);
    assert!(jwk.deleted_at.is_none());
    assert!(jwk.private_key_expires_at.is_none());
    assert!(jwk.key_expires_at.is_none());
}

#[test]
fn test_x5t_matches_x5c() {
    let jwk = generate_rsa_jwk_data(1024, "RS512").unwrap();

    let der = URL_SAFE_NO_PAD.decode(&jwk.x5c.unwrap()[0]).unwrap();
    let thumb = Sha1::digest(&der);
    let expected = URL_SAFE_NO_PAD.encode(thumb);

    assert_eq!(jwk.x5t.unwrap(), expected);
}

#[test]
fn test_x5c_is_a_v3_self_signed_certificate() {
    let cases: Vec<(&str, Nid)> = vec![
        ("RS256", Nid::SHA256WITHRSAENCRYPTION),
        ("RS384", Nid::SHA384WITHRSAENCRYPTION),
        ("RS512", Nid::SHA512WITHRSAENCRYPTION),
    ];
    for (alg, signature_nid) in cases {
        let jwk = generate_rsa_jwk_data(1024, alg).unwrap();
        let der = URL_SAFE_NO_PAD.decode(&jwk.x5c.unwrap()[0]).unwrap();
        let cert = openssl::x509::X509::from_der(&der).unwrap();

        // Version 3 is encoded as the value 2.
        assert_eq!(cert.version(), 2);

        // The signing digest follows the algorithm identifier.
        assert_eq!(cert.signature_algorithm().object().nid(), signature_nid);

        // The certificate wraps exactly the published RSA public key.
        let cert_n = cert.public_key().unwrap().rsa().unwrap().n().to_vec();
        let jwk_n = URL_SAFE_NO_PAD.decode(jwk.n.unwrap()).unwrap();
        assert_eq!(cert_n, jwk_n);

        // Self-signed: subject and issuer are the same placeholder identity.
        assert_eq!(format!("{:?}", cert.subject_name()), format!("{:?}", cert.issuer_name()));
    }
}

#[test]
fn test_ec_coordinate_widths() {
    let cases: Vec<(&str, &str, usize)> =
        vec![("ES256", "P-256", 32), ("ES384", "P-384", 48), ("ES512", "P-521", 66)];
    for (alg, crv, width) in cases {
        let jwk = generate_ec_jwk_data(alg).unwrap();
        assert_eq!(jwk.kty, "EC");
        assert_eq!(jwk.alg, alg);
        assert_eq!(jwk.crv.unwrap(), crv);
        assert_eq!(jwk.kid.len(), 36);
        let x = URL_SAFE_NO_PAD.decode(jwk.x.unwrap()).unwrap();
        let y = URL_SAFE_NO_PAD.decode(jwk.y.unwrap()).unwrap();
        assert_eq!(x.len(), width);
        assert_eq!(y.len(), width);
        assert!(jwk.n.is_none());
        assert!(jwk.e.is_none());
        assert!(jwk.x5c.is_none());
        assert!(jwk.x5t.is_none());
    }
}

#[test]
fn test_eddsa_field_presence() {
    let cases: Vec<(&str, usize)> = vec![("Ed25519", 32), ("Ed448", 57)];
    for (crv, width) in cases {
        let jwk = generate_eddsa_jwk_data(crv).unwrap();
        assert_eq!(jwk.kty, "OKP");
        assert_eq!(jwk.alg, "EdDSA");
        assert_eq!(jwk.crv.unwrap(), crv);
        assert_eq!(jwk.kid.len(), 36);
        let x = URL_SAFE_NO_PAD.decode(jwk.x.unwrap()).unwrap();
        assert_eq!(x.len(), width);
        assert!(jwk.y.is_none());
        assert!(jwk.n.is_none());
        assert!(jwk.e.is_none());
        assert!(jwk.x5c.is_none());
        assert!(jwk.x5t.is_none());
    }
}

#[test]
fn test_unsupported_algorithms_rejected() {
    assert_eq!(generate_rsa_jwk_data(1024, "HS256").unwrap_err(), JwkError::UnsupportedAlgorithm);
    assert_eq!(generate_rsa_jwk_data(1024, "ES256").unwrap_err(), JwkError::UnsupportedAlgorithm);
    assert_eq!(generate_ec_jwk_data("RS256").unwrap_err(), JwkError::UnsupportedAlgorithm);
    assert_eq!(generate_ec_jwk_data("es256").unwrap_err(), JwkError::UnsupportedAlgorithm);
    assert_eq!(generate_eddsa_jwk_data("Ed25519x").unwrap_err(), JwkError::UnsupportedAlgorithm);
    assert_eq!(generate_eddsa_jwk_data("").unwrap_err(), JwkError::UnsupportedAlgorithm);
}

#[test]
fn test_generation_failure_reported() {
    // No RSA key has zero bits: the engine refuses, and the failure is
    // reported as a generation error, not retried.
    assert_eq!(generate_rsa_jwk_data(0, "RS256").unwrap_err(), JwkError::GenerationError);
}

#[test]
fn test_two_keys_differ() {
    let a = generate_eddsa_jwk_data("Ed25519").unwrap();
    let b = generate_eddsa_jwk_data("Ed25519").unwrap();
    assert_ne!(a.kid, b.kid);
    assert_ne!(a.x.unwrap(), b.x.unwrap());
}
