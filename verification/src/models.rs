//! The data model: the persisted JWK record, its public projection,
//! and the request body naming an algorithm.

use vstd::prelude::*;

use crate::algs::KeyFamily;

verus! {

/// The request body of a key-generation call: the algorithm identifier.
#[derive(Debug)]
pub struct AlgorithmInput {
    /// One of the eight supported identifiers, e.g. "RS256" or "Ed25519".
    pub alg: String,
}

/// A persisted JWK record: the public JOSE fields, the opaque encoded
/// private key, and the timestamps that govern its visibility.
///
/// All byte-valued fields hold base64url (no padding) text; timestamps are
/// seconds. The optional fields follow the key family: (`n`, `e`, `x5c`,
/// `x5t`) are present exactly for RSA, (`crv`, `x`, `y`) exactly for EC,
/// and (`crv`, `x`) exactly for EdDSA.
#[derive(Debug)]
pub struct JwkData {
    /// Unique record identifier.
    pub id: u128,
    /// Key type: "RSA", "EC" or "OKP".
    pub kty: String,
    /// Signing algorithm label, e.g. "RS256" or "EdDSA".
    pub alg: String,
    /// Key identifier: a fresh random token, independent of key content.
    pub kid: String,
    /// Curve name, for the EC and EdDSA families.
    pub crv: Option<String>,
    /// Affine x coordinate (EC) or raw public key (EdDSA), base64url.
    pub x: Option<String>,
    /// Affine y coordinate (EC only), base64url.
    pub y: Option<String>,
    /// RSA modulus, unsigned big-endian, base64url.
    pub n: Option<String>,
    /// RSA public exponent, unsigned big-endian, base64url.
    pub e: Option<String>,
    /// Certificate chain: exactly one self-signed certificate, base64url DER.
    pub x5c: Option<Vec<String>>,
    /// SHA-1 thumbprint of the certificate's DER bytes, base64url.
    pub x5t: Option<String>,
    /// The private key in its standard encoded container, base64url.
    pub private_key: String,
    /// Creation time, seconds.
    pub created_at: i64,
    /// Soft-deletion time; once set it is never cleared.
    pub deleted_at: Option<i64>,
    /// Time after which the private key may no longer be handed out.
    pub private_key_expires_at: Option<i64>,
    /// Time after which the record disappears from every view.
    pub key_expires_at: Option<i64>,
}

/// The mathematical value of a [`JwkData`] record.
pub struct JwkDataView {
    pub id: u128,
    pub kty: Seq<char>,
    pub alg: Seq<char>,
    pub kid: Seq<char>,
    pub crv: Option<Seq<char>>,
    pub x: Option<Seq<char>>,
    pub y: Option<Seq<char>>,
    pub n: Option<Seq<char>>,
    pub e: Option<Seq<char>>,
    pub x5c: Option<Seq<Seq<char>>>,
    pub x5t: Option<Seq<char>>,
    pub private_key: Seq<char>,
    pub created_at: i64,
    pub deleted_at: Option<i64>,
    pub private_key_expires_at: Option<i64>,
    pub key_expires_at: Option<i64>,
}

impl DeepView for JwkData {
    type V = JwkDataView;

    open spec fn deep_view(&self) -> JwkDataView {
        self.view()
    }
}

impl View for JwkData {
    type V = JwkDataView;

    open spec fn view(&self) -> JwkDataView {
        JwkDataView {
            id: self.id,
            kty: self.kty@,
            alg: self.alg@,
            kid: self.kid@,
            crv: self.crv.deep_view(),
            x: self.x.deep_view(),
            y: self.y.deep_view(),
            n: self.n.deep_view(),
            e: self.e.deep_view(),
            x5c: self.x5c.deep_view(),
            x5t: self.x5t.deep_view(),
            private_key: self.private_key@,
            created_at: self.created_at,
            deleted_at: self.deleted_at,
            private_key_expires_at: self.private_key_expires_at,
            key_expires_at: self.key_expires_at,
        }
    }
}

impl JwkDataView {
    /// Which optional fields are present is fixed by the key family.
    pub open spec fn fields_match_family(self, fam: KeyFamily) -> bool {
        match fam {
            KeyFamily::Rsa => {
                &&& self.n is Some
                &&& self.e is Some
                &&& self.x5c is Some
                &&& self.x5t is Some
                &&& self.crv is None
                &&& self.x is None
                &&& self.y is None
            },
            KeyFamily::Ec => {
                &&& self.crv is Some
                &&& self.x is Some
                &&& self.y is Some
                &&& self.n is None
                &&& self.e is None
                &&& self.x5c is None
                &&& self.x5t is None
            },
            KeyFamily::Okp => {
                &&& self.crv is Some
                &&& self.x is Some
                &&& self.y is None
                &&& self.n is None
                &&& self.e is None
                &&& self.x5c is None
                &&& self.x5t is None
            },
        }
    }

    /// True of a record fresh out of the generator: no identifier and no
    /// lifecycle timestamp has been assigned yet.
    pub open spec fn lifecycle_unassigned(self) -> bool {
        &&& self.id == 0
        &&& self.created_at == 0
        &&& self.deleted_at is None
        &&& self.private_key_expires_at is None
        &&& self.key_expires_at is None
    }

    /// When both expiry timestamps are set, they bracket the creation time:
    /// `created_at < private_key_expires_at < key_expires_at`.
    pub open spec fn timestamps_ordered(self) -> bool {
        self.private_key_expires_at is Some && self.key_expires_at is Some
            ==> self.created_at < self.private_key_expires_at->0
                < self.key_expires_at->0
    }
}

/// One public JWK: what listing exposes. Carries no private key and no
/// lifecycle timestamp, so this path cannot leak either.
#[derive(Debug)]
pub struct Jwk {
    /// Key type: "RSA", "EC" or "OKP".
    pub kty: String,
    /// Intended key use; always "sig" here.
    pub use_: String,
    /// Signing algorithm label.
    pub alg: String,
    /// Key identifier.
    pub kid: String,
    /// Curve name, for the EC and EdDSA families.
    pub crv: Option<String>,
    /// Affine x coordinate or raw public key, base64url.
    pub x: Option<String>,
    /// Affine y coordinate, base64url.
    pub y: Option<String>,
    /// RSA modulus, base64url.
    pub n: Option<String>,
    /// RSA public exponent, base64url.
    pub e: Option<String>,
    /// Certificate chain, base64url DER.
    pub x5c: Option<Vec<String>>,
    /// SHA-1 thumbprint of the certificate, base64url.
    pub x5t: Option<String>,
}

/// The mathematical value of a [`Jwk`].
pub struct JwkView {
    pub kty: Seq<char>,
    pub use_: Seq<char>,
    pub alg: Seq<char>,
    pub kid: Seq<char>,
    pub crv: Option<Seq<char>>,
    pub x: Option<Seq<char>>,
    pub y: Option<Seq<char>>,
    pub n: Option<Seq<char>>,
    pub e: Option<Seq<char>>,
    pub x5c: Option<Seq<Seq<char>>>,
    pub x5t: Option<Seq<char>>,
}

impl DeepView for Jwk {
    type V = JwkView;

    open spec fn deep_view(&self) -> JwkView {
        self.view()
    }
}

impl View for Jwk {
    type V = JwkView;

    open spec fn view(&self) -> JwkView {
        JwkView {
            kty: self.kty@,
            use_: self.use_@,
            alg: self.alg@,
            kid: self.kid@,
            crv: self.crv.deep_view(),
            x: self.x.deep_view(),
            y: self.y.deep_view(),
            n: self.n.deep_view(),
            e: self.e.deep_view(),
            x5c: self.x5c.deep_view(),
            x5t: self.x5t.deep_view(),
        }
    }
}

/// The public projection of a record: its JOSE fields under `use` = "sig".
pub open spec fn spec_to_public(r: JwkDataView) -> JwkView {
    JwkView {
        kty: r.kty,
        use_: "sig"@,
        alg: r.alg,
        kid: r.kid,
        crv: r.crv,
        x: r.x,
        y: r.y,
        n: r.n,
        e: r.e,
        x5c: r.x5c,
        x5t: r.x5t,
    }
}

/// A set of public JWKs, as listing returns it.
#[derive(Debug)]
pub struct Jwks {
    /// The public keys, in the record store's order.
    pub keys: Vec<Jwk>,
}

impl View for Jwks {
    type V = Seq<JwkView>;

    open spec fn view(&self) -> Seq<JwkView> {
        self.keys.deep_view()
    }
}

/// Clones an optional string, keeping its value.
fn clone_opt_string(o: &Option<String>) -> (r: Option<String>)
    ensures
        r.deep_view() == o.deep_view(),
{
    match o {
        Some(s) => Some(s.clone()),
        None => None,
    }
}

/// Clones an optional list of strings, keeping its value.
fn clone_opt_vec_string(o: &Option<Vec<String>>) -> (r: Option<Vec<String>>)
    ensures
        r.deep_view() == o.deep_view(),
{
    match o {
        Some(v) => {
            let mut out: Vec<String> = Vec::new();
            let mut i: usize = 0;
            while i < v.len()
                invariant
                    i <= v.len(),
                    out@.len() == i,
                    forall|j: int| 0 <= j < i ==> out@[j] == v@[j],
                decreases v.len() - i,
            {
                out.push(v[i].clone());
                i = i + 1;
            }
            proof {
                assert(out@ =~= v@);
            }
            Some(out)
        },
        None => None,
    }
}

impl JwkData {
    /// An owned copy of the record, equal to it in value.
    pub fn duplicate(&self) -> (r: JwkData)
        ensures
            r@ == self@,
    {
        JwkData {
            id: self.id,
            kty: self.kty.clone(),
            alg: self.alg.clone(),
            kid: self.kid.clone(),
            crv: clone_opt_string(&self.crv),
            x: clone_opt_string(&self.x),
            y: clone_opt_string(&self.y),
            n: clone_opt_string(&self.n),
            e: clone_opt_string(&self.e),
            x5c: clone_opt_vec_string(&self.x5c),
            x5t: clone_opt_string(&self.x5t),
            private_key: self.private_key.clone(),
            created_at: self.created_at,
            deleted_at: self.deleted_at,
            private_key_expires_at: self.private_key_expires_at,
            key_expires_at: self.key_expires_at,
        }
    }

    /// The record's public projection: its JOSE fields with `use` = "sig",
    /// and neither the private key nor any lifecycle timestamp.
    pub fn to_public(&self) -> (r: Jwk)
        ensures
            r@ == spec_to_public(self@),
    {
        Jwk {
            kty: self.kty.clone(),
            use_: "sig".to_owned(),
            alg: self.alg.clone(),
            kid: self.kid.clone(),
            crv: clone_opt_string(&self.crv),
            x: clone_opt_string(&self.x),
            y: clone_opt_string(&self.y),
            n: clone_opt_string(&self.n),
            e: clone_opt_string(&self.e),
            x5c: clone_opt_vec_string(&self.x5c),
            x5t: clone_opt_string(&self.x5t),
        }
    }
}

} // verus!
