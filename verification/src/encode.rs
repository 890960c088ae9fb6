//! Byte-level encodings that the JWK fields use: base64url without padding,
//! the SHA-1 digest behind certificate thumbprints, and fresh key identifiers.
//!
//! The outside crates do the computing; each call sits behind one trusted
//! wrapper. The two deterministic results are given names (`b64url_of`,
//! `sha1_of`) that every downstream contract is verified against; of a fresh
//! key identifier only its length is promised, since its value is random.

use vstd::prelude::*;

use base64::Engine;
use sha1::Digest;

use crate::algs::{Alg, KeyFamily};
use crate::crypto::{EcKeyMaterial, OkpKeyMaterial, RsaKeyMaterial};
use crate::models::JwkData;

verus! {

/// What `base64url_encode` returns: the base64url text, without padding,
/// of a byte string.
pub uninterp spec fn b64url_of(bytes: Seq<u8>) -> Seq<char>;

/// What `sha1_digest` returns: the SHA-1 digest of a byte string.
pub uninterp spec fn sha1_of(bytes: Seq<u8>) -> Seq<u8>;

/// Relies on base64's `URL_SAFE_NO_PAD` engine: the encoding depends on the
/// input bytes alone, and without padding every full 3-byte chunk becomes 4
/// characters, a 1-byte remainder 2 and a 2-byte remainder 3, so the output
/// holds `(4 * n + 2) / 3` characters.
#[verifier::external_body]
pub(crate) fn base64url_encode(bytes: &Vec<u8>) -> (r: String)
    ensures
        r@ == b64url_of(bytes@),
        r@.len() == (4 * bytes@.len() + 2) / 3,
{
    base64::engine::general_purpose::URL_SAFE_NO_PAD.encode(bytes)
}

/// Relies on sha1's `Sha1::digest`: the digest depends on the input bytes
/// alone and is always 20 bytes.
#[verifier::external_body]
pub(crate) fn sha1_digest(bytes: &Vec<u8>) -> (r: Vec<u8>)
    ensures
        r@ == sha1_of(bytes@),
        r@.len() == 20,
{
    sha1::Sha1::digest(bytes).to_vec()
}

/// Relies on uuid's `Uuid::new_v4` and its hyphenated rendering: a fresh
/// random identifier always prints as 36 characters. The value is random,
/// so nothing more is promised of it.
#[verifier::external_body]
pub(crate) fn fresh_kid() -> (r: String)
    ensures
        r@.len() == 36,
{
    uuid::Uuid::new_v4().to_string()
}

/// Encodes RSA key material, with its already-issued certificate fields,
/// into the JWK field set of the RSA family: every byte string base64url,
/// a fresh kid, and no lifecycle data.
pub fn encode_rsa_jwk(material: RsaKeyMaterial, x5c: Vec<String>, x5t: String, a: Alg) -> (r:
    JwkData)
    requires
        a.spec_family() == KeyFamily::Rsa,
    ensures
        r@.kty == "RSA"@,
        r@.alg == a.spec_label(),
        r@.kid.len() == 36,
        r@.crv is None && r@.x is None && r@.y is None,
        r@.n == Some(b64url_of(material.n@)),
        r@.e == Some(b64url_of(material.e@)),
        r@.x5c == Some(x5c.deep_view()),
        r@.x5t == Some(x5t@),
        r@.private_key == b64url_of(material.private_pkcs8@),
        r@.lifecycle_unassigned(),
{
    JwkData {
        id: 0,
        kty: a.kty().to_owned(),
        alg: a.label().to_owned(),
        kid: fresh_kid(),
        crv: None,
        x: None,
        y: None,
        n: Some(base64url_encode(&material.n)),
        e: Some(base64url_encode(&material.e)),
        x5c: Some(x5c),
        x5t: Some(x5t),
        private_key: base64url_encode(&material.private_pkcs8),
        created_at: 0,
        deleted_at: None,
        private_key_expires_at: None,
        key_expires_at: None,
    }
}

/// Encodes EC key material into the JWK field set of the EC family: the
/// curve's name, both affine coordinates base64url, a fresh kid, and no
/// lifecycle data.
pub fn encode_ec_jwk(material: EcKeyMaterial, a: Alg) -> (r: JwkData)
    requires
        a.spec_family() == KeyFamily::Ec,
    ensures
        r@.kty == "EC"@,
        r@.alg == a.spec_label(),
        r@.kid.len() == 36,
        r@.crv == Some(a.spec_curve_name()->0),
        r@.x == Some(b64url_of(material.x@)),
        r@.y == Some(b64url_of(material.y@)),
        r@.n is None && r@.e is None && r@.x5c is None && r@.x5t is None,
        r@.private_key == b64url_of(material.private_pkcs8@),
        r@.lifecycle_unassigned(),
{
    let crv = match a.curve_name() {
        Some(name) => name,
        None => unreached(),
    };
    JwkData {
        id: 0,
        kty: a.kty().to_owned(),
        alg: a.label().to_owned(),
        kid: fresh_kid(),
        crv: Some(crv.to_owned()),
        x: Some(base64url_encode(&material.x)),
        y: Some(base64url_encode(&material.y)),
        n: None,
        e: None,
        x5c: None,
        x5t: None,
        private_key: base64url_encode(&material.private_pkcs8),
        created_at: 0,
        deleted_at: None,
        private_key_expires_at: None,
        key_expires_at: None,
    }
}

/// Encodes Edwards-curve key material into the JWK field set of the OKP
/// family: the curve's name, the raw public key base64url under `x`, a
/// fresh kid, and no lifecycle data.
pub fn encode_okp_jwk(material: OkpKeyMaterial, a: Alg) -> (r: JwkData)
    requires
        a.spec_family() == KeyFamily::Okp,
    ensures
        r@.kty == "OKP"@,
        r@.alg == a.spec_label(),
        r@.kid.len() == 36,
        r@.crv == Some(a.spec_curve_name()->0),
        r@.x == Some(b64url_of(material.public@)),
        r@.y is None && r@.n is None && r@.e is None && r@.x5c is None && r@.x5t is None,
        r@.private_key == b64url_of(material.private_pkcs8@),
        r@.lifecycle_unassigned(),
{
    let crv = match a.curve_name() {
        Some(name) => name,
        None => unreached(),
    };
    JwkData {
        id: 0,
        kty: a.kty().to_owned(),
        alg: a.label().to_owned(),
        kid: fresh_kid(),
        crv: Some(crv.to_owned()),
        x: Some(base64url_encode(&material.public)),
        y: None,
        n: None,
        e: None,
        x5c: None,
        x5t: None,
        private_key: base64url_encode(&material.private_pkcs8),
        created_at: 0,
        deleted_at: None,
        private_key_expires_at: None,
        key_expires_at: None,
    }
}

} // verus!
