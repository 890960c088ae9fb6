//! Key-pair generation and JWK encoding for the eight supported algorithms.
//!
//! openssl does the number-theoretic work behind narrow trusted wrappers;
//! everything from algorithm dispatch through field assembly is verified.
//! RSA records additionally carry one self-signed certificate (`x5c`) and
//! its SHA-1 thumbprint (`x5t`), both derived here from the same DER bytes.

use vstd::prelude::*;

use crate::algs::{Alg, KeyFamily};
use crate::algs::{alg_from_name, parse_alg};
use crate::encode::{
    b64url_of, base64url_encode, encode_ec_jwk, encode_okp_jwk, encode_rsa_jwk, sha1_digest,
    sha1_of,
};
use crate::errors::JwkError;
use crate::models::{JwkData, JwkDataView};

verus! {

/// openssl's error type; opaque here, mapped to `GenerationError` by callers.
#[verifier::external_type_specification]
#[verifier::external_body]
pub struct ExErrorStack(openssl::error::ErrorStack);

/// openssl's digest selector; opaque, chosen by verified dispatch.
#[verifier::external_type_specification]
#[verifier::external_body]
pub struct ExMessageDigest(openssl::hash::MessageDigest);

/// openssl's named-curve identifier; opaque, chosen by verified dispatch.
#[verifier::external_type_specification]
#[verifier::external_body]
pub struct ExNid(openssl::nid::Nid);

/// Relies on openssl's `MessageDigest::sha256`: the SHA-256 selector.
pub assume_specification[ openssl::hash::MessageDigest::sha256 ]() -> openssl::hash::MessageDigest;

/// Relies on openssl's `MessageDigest::sha384`: the SHA-384 selector.
pub assume_specification[ openssl::hash::MessageDigest::sha384 ]() -> openssl::hash::MessageDigest;

/// Relies on openssl's `MessageDigest::sha512`: the SHA-512 selector.
pub assume_specification[ openssl::hash::MessageDigest::sha512 ]() -> openssl::hash::MessageDigest;

/// Raw RSA generation output: public modulus and exponent, and the private
/// key in its standard encoded container (PKCS#8 DER).
pub struct RsaKeyMaterial {
    /// Modulus, unsigned big-endian.
    pub n: Vec<u8>,
    /// Public exponent, unsigned big-endian.
    pub e: Vec<u8>,
    /// The whole private key, PKCS#8 DER.
    pub private_pkcs8: Vec<u8>,
}

/// Raw EC generation output: affine public coordinates and the private key
/// in its standard encoded container.
pub struct EcKeyMaterial {
    /// Affine x coordinate, unsigned big-endian, padded to the curve width.
    pub x: Vec<u8>,
    /// Affine y coordinate, unsigned big-endian, padded to the curve width.
    pub y: Vec<u8>,
    /// The whole private key, PKCS#8 DER.
    pub private_pkcs8: Vec<u8>,
}

/// Raw Edwards-curve generation output: the raw public key bytes and the
/// private key in its standard encoded container.
pub struct OkpKeyMaterial {
    /// Raw public key bytes.
    pub public: Vec<u8>,
    /// The whole private key, PKCS#8 DER.
    pub private_pkcs8: Vec<u8>,
}

/// Relies on openssl's `Rsa::generate` (a fresh key pair with a modulus of
/// exactly `bits` bits and public exponent 65537), `BigNumRef::to_vec`
/// (minimal unsigned big-endian bytes, so the modulus fills `bits / 8` bytes
/// rounded up and the exponent is `[0x01, 0x00, 0x01]`), and
/// `PKey::private_key_to_pkcs8`.
#[verifier::external_body]
fn generate_rsa_material(bits: u32) -> (r: Result<RsaKeyMaterial, openssl::error::ErrorStack>)
    ensures
        r matches Ok(m) ==> {
            &&& m.n@.len() == (bits as int + 7) / 8
            &&& m.e@ == seq![0x01u8, 0x00u8, 0x01u8]
        },
{
    let rsa = openssl::rsa::Rsa::generate(bits)?;
    let private_pkcs8 = openssl::pkey::PKey::from_rsa(rsa.clone())?.private_key_to_pkcs8()?;
    Ok(RsaKeyMaterial { n: rsa.n().to_vec(), e: rsa.e().to_vec(), private_pkcs8 })
}

/// Relies on openssl's `Nid::X9_62_PRIME256V1`: the named-curve identifier
/// of P-256.
#[verifier::external_body]
fn nid_p256() -> openssl::nid::Nid {
    openssl::nid::Nid::X9_62_PRIME256V1
}

/// Relies on openssl's `Nid::SECP384R1`: the named-curve identifier of P-384.
#[verifier::external_body]
fn nid_p384() -> openssl::nid::Nid {
    openssl::nid::Nid::SECP384R1
}

/// Relies on openssl's `Nid::SECP521R1`: the named-curve identifier of P-521.
#[verifier::external_body]
fn nid_p521() -> openssl::nid::Nid {
    openssl::nid::Nid::SECP521R1
}

/// Relies on openssl's `EcGroup::from_curve_name`, `EcKey::generate`,
/// `EcPointRef::affine_coordinates_gfp`, `BigNumRef::to_vec_padded` (exactly
/// `width` bytes on success) and `PKey::private_key_to_pkcs8`.
#[verifier::external_body]
fn generate_ec_material(curve: openssl::nid::Nid, width: i32) -> (r: Result<
    EcKeyMaterial,
    openssl::error::ErrorStack,
>)
    requires
        width >= 0,
    ensures
        r matches Ok(m) ==> m.x@.len() == width && m.y@.len() == width,
{
    let group = openssl::ec::EcGroup::from_curve_name(curve)?;
    let key = openssl::ec::EcKey::generate(&group)?;
    let mut ctx = openssl::bn::BigNumContext::new()?;
    let mut x = openssl::bn::BigNum::new()?;
    let mut y = openssl::bn::BigNum::new()?;
    key.public_key().affine_coordinates_gfp(&group, &mut x, &mut y, &mut ctx)?;
    let private_pkcs8 = openssl::pkey::PKey::from_ec_key(key)?.private_key_to_pkcs8()?;
    Ok(EcKeyMaterial { x: x.to_vec_padded(width)?, y: y.to_vec_padded(width)?, private_pkcs8 })
}

/// Relies on openssl's `PKey::generate_ed25519`, `raw_public_key` (an
/// Ed25519 public key is 32 raw bytes, RFC 8032) and `private_key_to_pkcs8`.
#[verifier::external_body]
fn generate_ed25519_material() -> (r: Result<OkpKeyMaterial, openssl::error::ErrorStack>)
    ensures
        r matches Ok(m) ==> m.public@.len() == 32,
{
    let key = openssl::pkey::PKey::generate_ed25519()?;
    Ok(OkpKeyMaterial { public: key.raw_public_key()?, private_pkcs8: key.private_key_to_pkcs8()? })
}

/// Relies on openssl's `PKey::generate_ed448`, `raw_public_key` (an Ed448
/// public key is 57 raw bytes, RFC 8032) and `private_key_to_pkcs8`.
#[verifier::external_body]
fn generate_ed448_material() -> (r: Result<OkpKeyMaterial, openssl::error::ErrorStack>)
    ensures
        r matches Ok(m) ==> m.public@.len() == 57,
{
    let key = openssl::pkey::PKey::generate_ed448()?;
    Ok(OkpKeyMaterial { public: key.raw_public_key()?, private_pkcs8: key.private_key_to_pkcs8()? })
}

/// Relies on openssl's X.509 building blocks: `PKey::private_key_from_pkcs8`,
/// the `X509Name` and `X509` builders (version 3 is set as value 2; subject
/// and issuer are one fixed placeholder name; a validity window is filled in
/// only so the certificate is well-formed — key availability is governed by
/// the lifecycle timestamps alone), `X509Builder::sign` with the given
/// digest, and `X509::to_der`. Returns the certificate's DER bytes; nothing
/// further is promised of them.
#[verifier::external_body]
fn build_self_signed_cert(private_pkcs8: &Vec<u8>, digest: openssl::hash::MessageDigest) -> (r:
    Result<Vec<u8>, openssl::error::ErrorStack>)
{
    let pkey = openssl::pkey::PKey::private_key_from_pkcs8(private_pkcs8)?;
    let mut name = openssl::x509::X509Name::builder()?;
    name.append_entry_by_nid(openssl::nid::Nid::COMMONNAME, "ANONYMOUS")?;
    let name = name.build();
    let mut builder = openssl::x509::X509::builder()?;
    builder.set_version(2)?;
    builder.set_subject_name(&name)?;
    builder.set_issuer_name(&name)?;
    builder.set_not_before(openssl::asn1::Asn1Time::days_from_now(0)?.as_ref())?;
    builder.set_not_after(openssl::asn1::Asn1Time::days_from_now(3650)?.as_ref())?;
    builder.set_pubkey(&pkey)?;
    builder.sign(&pkey, digest)?;
    builder.build().to_der()
}

/// The identifier names an RSA-family algorithm.
pub open spec fn rsa_alg_named(s: Seq<char>) -> bool {
    alg_from_name(s) matches Some(a) && a.spec_family() == KeyFamily::Rsa
}

/// The identifier names an EC-family algorithm.
pub open spec fn ec_alg_named(s: Seq<char>) -> bool {
    alg_from_name(s) matches Some(a) && a.spec_family() == KeyFamily::Ec
}

/// The identifier names an Edwards-curve algorithm.
pub open spec fn okp_alg_named(s: Seq<char>) -> bool {
    alg_from_name(s) matches Some(a) && a.spec_family() == KeyFamily::Okp
}

/// A certificate chain and thumbprint cut from one DER byte string: `x5c`
/// holds exactly one entry, the base64url encoding of those bytes, and
/// `x5t` is the base64url SHA-1 thumbprint of the same bytes.
pub open spec fn cert_pair_consistent(x5c: Seq<Seq<char>>, x5t: Seq<char>) -> bool {
    exists|der: Seq<u8>|
        #![auto]
        x5c == seq![b64url_of(der)] && x5t == b64url_of(sha1_of(der))
}

/// The certificate fields of a record come from one DER byte string.
pub open spec fn cert_fields_consistent(k: JwkDataView) -> bool {
    k.x5c matches Some(c) && k.x5t matches Some(t) && cert_pair_consistent(c, t)
}

/// Issues one version-3 self-signed certificate over the given private key
/// (in its standard encoded container) and derives the two JWK certificate
/// fields from its DER bytes: `x5c` with that single certificate base64url,
/// and `x5t`, its base64url SHA-1 thumbprint.
///
/// Only the RSA family signs certificates here; its identifier fixes the
/// signing digest (SHA-256/384/512). Anything else is
/// `UnsupportedAlgorithm`; an engine failure is `GenerationError`.
pub fn issue_certificate(private_pkcs8: &Vec<u8>, a: Alg) -> (r: Result<
    (Vec<String>, String),
    JwkError,
>)
    ensures
        a.spec_family() != KeyFamily::Rsa <==> r == Err::<(Vec<String>, String), JwkError>(
            JwkError::UnsupportedAlgorithm,
        ),
        r is Err ==> r->Err_0 == JwkError::UnsupportedAlgorithm || r->Err_0
            == JwkError::GenerationError,
        r matches Ok(p) ==> cert_pair_consistent(p.0.deep_view(), p.1@),
{
    let digest = match a {
        Alg::RS256 => openssl::hash::MessageDigest::sha256(),
        Alg::RS384 => openssl::hash::MessageDigest::sha384(),
        Alg::RS512 => openssl::hash::MessageDigest::sha512(),
        _ => { return Err(JwkError::UnsupportedAlgorithm) },
    };
    let cert_der = match build_self_signed_cert(private_pkcs8, digest) {
        Ok(d) => d,
        Err(_) => { return Err(JwkError::GenerationError) },
    };
    let chain_entry = base64url_encode(&cert_der);
    let thumb = sha1_digest(&cert_der);
    let x5t = base64url_encode(&thumb);
    let mut chain: Vec<String> = Vec::new();
    chain.push(chain_entry);
    proof {
        assert(chain.deep_view() =~= seq![b64url_of(cert_der@)]);
    }
    Ok((chain, x5t))
}

/// The JOSE field content of an RSA record: the RSA field set and no other,
/// labels fixed by the algorithm, the exponent 65537, a modulus filling the
/// requested bit length, certificate fields cut from one DER, an encoded
/// private key, and a 36-character kid.
pub open spec fn rsa_jose_fields_ok(k: JwkDataView, alg_name: Seq<char>, bits: u32) -> bool {
    &&& k.fields_match_family(KeyFamily::Rsa)
    &&& k.kty == "RSA"@
    &&& k.alg == alg_name
    &&& k.kid.len() == 36
    &&& k.e == Some(b64url_of(seq![0x01u8, 0x00u8, 0x01u8]))
    &&& exists|nb: Seq<u8>|
        #[trigger] b64url_of(nb) == k.n->0 && nb.len() == (bits as int + 7) / 8
    &&& cert_fields_consistent(k)
    &&& exists|pk: Seq<u8>| #[trigger] b64url_of(pk) == k.private_key
}

/// Everything the generator promises of a fresh RSA record: its JOSE field
/// content, and no lifecycle data assigned yet.
pub open spec fn rsa_record_ok(k: JwkDataView, alg_name: Seq<char>, bits: u32) -> bool {
    rsa_jose_fields_ok(k, alg_name, bits) && k.lifecycle_unassigned()
}

/// The JOSE field content of an EC record: the EC field set and no other,
/// label and curve name fixed by the algorithm, coordinates encoding exactly
/// the curve's width in bytes, an encoded private key, and a 36-character
/// kid.
pub open spec fn ec_jose_fields_ok(k: JwkDataView, a: Alg) -> bool {
    &&& k.fields_match_family(KeyFamily::Ec)
    &&& k.kty == "EC"@
    &&& k.alg == a.spec_label()
    &&& k.kid.len() == 36
    &&& k.crv == Some(a.spec_curve_name()->0)
    &&& exists|xb: Seq<u8>| #[trigger] b64url_of(xb) == k.x->0 && xb.len() == a.spec_coord_width()
    &&& exists|yb: Seq<u8>| #[trigger] b64url_of(yb) == k.y->0 && yb.len() == a.spec_coord_width()
    &&& exists|pk: Seq<u8>| #[trigger] b64url_of(pk) == k.private_key
}

/// Everything the generator promises of a fresh EC record: its JOSE field
/// content, and no lifecycle data assigned yet.
pub open spec fn ec_record_ok(k: JwkDataView, a: Alg) -> bool {
    ec_jose_fields_ok(k, a) && k.lifecycle_unassigned()
}

/// The JOSE field content of an Edwards-curve record: the OKP field set and
/// no other, the JOSE label "EdDSA", the curve's name, a raw public key
/// encoding exactly the curve's width in bytes, an encoded private key, and
/// a 36-character kid.
pub open spec fn okp_jose_fields_ok(k: JwkDataView, a: Alg) -> bool {
    &&& k.fields_match_family(KeyFamily::Okp)
    &&& k.kty == "OKP"@
    &&& k.alg == "EdDSA"@
    &&& k.kid.len() == 36
    &&& k.crv == Some(a.spec_curve_name()->0)
    &&& exists|pb: Seq<u8>| #[trigger] b64url_of(pb) == k.x->0 && pb.len() == a.spec_coord_width()
    &&& exists|pk: Seq<u8>| #[trigger] b64url_of(pk) == k.private_key
}

/// Everything the generator promises of a fresh Edwards-curve record: its
/// JOSE field content, and no lifecycle data assigned yet.
pub open spec fn okp_record_ok(k: JwkDataView, a: Alg) -> bool {
    okp_jose_fields_ok(k, a) && k.lifecycle_unassigned()
}

/// The JOSE field content a record generated for algorithm `a` (named
/// `alg_name`, RSA keys of `bits` bits) must carry, whatever its family.
pub open spec fn jose_fields_ok(k: JwkDataView, a: Alg, alg_name: Seq<char>, bits: u32) -> bool {
    match a.spec_family() {
        KeyFamily::Rsa => rsa_jose_fields_ok(k, alg_name, bits),
        KeyFamily::Ec => ec_jose_fields_ok(k, a),
        KeyFamily::Okp => okp_jose_fields_ok(k, a),
    }
}

/// Generates an RSA key pair of `key_size` bits and encodes it as a JWK
/// record with a self-signed certificate and its SHA-1 thumbprint.
///
/// Accepts exactly the RSA-family identifiers "RS256", "RS384" and "RS512",
/// which fix the certificate's signing digest; anything else is
/// `UnsupportedAlgorithm`. An engine failure is `GenerationError`.
pub fn generate_rsa_jwk_data(key_size: u32, alg: &str) -> (r: Result<JwkData, JwkError>)
    ensures
        !rsa_alg_named(alg@) <==> r == Err::<JwkData, JwkError>(JwkError::UnsupportedAlgorithm),
        r is Err ==> r->Err_0 == JwkError::UnsupportedAlgorithm || r->Err_0
            == JwkError::GenerationError,
        r matches Ok(k) ==> rsa_record_ok(k@, alg@, key_size),
{
    let a = match parse_alg(alg) {
        Some(a) => a,
        None => { return Err(JwkError::UnsupportedAlgorithm) },
    };
    if !matches!(a, Alg::RS256 | Alg::RS384 | Alg::RS512) {
        return Err(JwkError::UnsupportedAlgorithm);
    }
    let material = match generate_rsa_material(key_size) {
        Ok(m) => m,
        Err(_) => { return Err(JwkError::GenerationError) },
    };
    let (x5c, x5t) = match issue_certificate(&material.private_pkcs8, a) {
        Ok(pair) => pair,
        Err(_) => { return Err(JwkError::GenerationError) },
    };
    Ok(encode_rsa_jwk(material, x5c, x5t, a))
}

/// Generates an elliptic-curve key pair and encodes it as a JWK record.
///
/// Accepts exactly the EC-family identifiers, each fixing its curve:
/// "ES256" (P-256), "ES384" (P-384) and "ES512" (P-521); anything else is
/// `UnsupportedAlgorithm`. An engine failure is `GenerationError`.
pub fn generate_ec_jwk_data(alg: &str) -> (r: Result<JwkData, JwkError>)
    ensures
        !ec_alg_named(alg@) <==> r == Err::<JwkData, JwkError>(JwkError::UnsupportedAlgorithm),
        r is Err ==> r->Err_0 == JwkError::UnsupportedAlgorithm || r->Err_0
            == JwkError::GenerationError,
        r matches Ok(k) ==> ec_record_ok(k@, alg_from_name(alg@)->0),
{
    let a = match parse_alg(alg) {
        Some(a) => a,
        None => { return Err(JwkError::UnsupportedAlgorithm) },
    };
    let (curve, width) = match a {
        Alg::ES256 => (nid_p256(), 32_i32),
        Alg::ES384 => (nid_p384(), 48_i32),
        Alg::ES512 => (nid_p521(), 66_i32),
        _ => { return Err(JwkError::UnsupportedAlgorithm) },
    };
    let material = match generate_ec_material(curve, width) {
        Ok(m) => m,
        Err(_) => { return Err(JwkError::GenerationError) },
    };
    Ok(encode_ec_jwk(material, a))
}

/// Generates an Edwards-curve key pair and encodes it as a JWK record under
/// the JOSE algorithm label "EdDSA".
///
/// Accepts exactly the curve selectors "Ed25519" and "Ed448"; anything else
/// is `UnsupportedAlgorithm`. An engine failure is `GenerationError`.
pub fn generate_eddsa_jwk_data(crv: &str) -> (r: Result<JwkData, JwkError>)
    ensures
        !okp_alg_named(crv@) <==> r == Err::<JwkData, JwkError>(JwkError::UnsupportedAlgorithm),
        r is Err ==> r->Err_0 == JwkError::UnsupportedAlgorithm || r->Err_0
            == JwkError::GenerationError,
        r matches Ok(k) ==> okp_record_ok(k@, alg_from_name(crv@)->0),
{
    let a = match parse_alg(crv) {
        Some(a) => a,
        None => { return Err(JwkError::UnsupportedAlgorithm) },
    };
    let material = match a {
        Alg::Ed25519 => match generate_ed25519_material() {
            Ok(m) => m,
            Err(_) => { return Err(JwkError::GenerationError) },
        },
        Alg::Ed448 => match generate_ed448_material() {
            Ok(m) => m,
            Err(_) => { return Err(JwkError::GenerationError) },
        },
        _ => { return Err(JwkError::UnsupportedAlgorithm) },
    };
    Ok(encode_okp_jwk(material, a))
}

} // verus!
