//! The closed set of supported algorithm identifiers and its fixed tables:
//! key family, JWK labels, curve names and coordinate widths.

use vstd::prelude::*;

verus! {

/// The eight supported algorithm identifiers. Each one fixes a key family
/// and a digest or curve choice; nothing outside this set is ever generated.
#[derive(Debug, Clone, Copy, PartialEq, Eq, Structural)]
pub enum Alg {
    RS256,
    RS384,
    RS512,
    ES256,
    ES384,
    ES512,
    Ed25519,
    Ed448,
}

/// The three key families, each with its own JWK field set.
#[derive(Debug, Clone, Copy, PartialEq, Eq, Structural)]
pub enum KeyFamily {
    /// RSA keys: `n`, `e`, plus a self-signed certificate (`x5c`, `x5t`).
    Rsa,
    /// Elliptic-curve keys: `crv`, `x`, `y`.
    Ec,
    /// Edwards-curve keys (key type "OKP"): `crv`, `x`.
    Okp,
}

impl Alg {
    /// The family that the algorithm's keys belong to.
    pub open spec fn spec_family(self) -> KeyFamily {
        match self {
            Alg::RS256 | Alg::RS384 | Alg::RS512 => KeyFamily::Rsa,
            Alg::ES256 | Alg::ES384 | Alg::ES512 => KeyFamily::Ec,
            Alg::Ed25519 | Alg::Ed448 => KeyFamily::Okp,
        }
    }

    /// The family that the algorithm's keys belong to.
    pub fn family(&self) -> (r: KeyFamily)
        ensures
            r == self.spec_family(),
    {
        match self {
            Alg::RS256 | Alg::RS384 | Alg::RS512 => KeyFamily::Rsa,
            Alg::ES256 | Alg::ES384 | Alg::ES512 => KeyFamily::Ec,
            Alg::Ed25519 | Alg::Ed448 => KeyFamily::Okp,
        }
    }

    /// The value of the JWK `alg` field: the identifier itself, except that
    /// both Edwards curves are signed under the single JOSE name "EdDSA".
    pub open spec fn spec_label(self) -> Seq<char> {
        match self {
            Alg::RS256 => "RS256"@,
            Alg::RS384 => "RS384"@,
            Alg::RS512 => "RS512"@,
            Alg::ES256 => "ES256"@,
            Alg::ES384 => "ES384"@,
            Alg::ES512 => "ES512"@,
            Alg::Ed25519 | Alg::Ed448 => "EdDSA"@,
        }
    }

    /// The value of the JWK `alg` field for this algorithm.
    pub fn label(&self) -> (r: &'static str)
        ensures
            r@ == self.spec_label(),
    {
        match self {
            Alg::RS256 => "RS256",
            Alg::RS384 => "RS384",
            Alg::RS512 => "RS512",
            Alg::ES256 => "ES256",
            Alg::ES384 => "ES384",
            Alg::ES512 => "ES512",
            Alg::Ed25519 | Alg::Ed448 => "EdDSA",
        }
    }

    /// The value of the JWK `kty` field, fully determined by the family.
    pub open spec fn spec_kty(self) -> Seq<char> {
        match self.spec_family() {
            KeyFamily::Rsa => "RSA"@,
            KeyFamily::Ec => "EC"@,
            KeyFamily::Okp => "OKP"@,
        }
    }

    /// The value of the JWK `kty` field for this algorithm.
    pub fn kty(&self) -> (r: &'static str)
        ensures
            r@ == self.spec_kty(),
    {
        match self.family() {
            KeyFamily::Rsa => "RSA",
            KeyFamily::Ec => "EC",
            KeyFamily::Okp => "OKP",
        }
    }

    /// The JWK `crv` name, for the two curve families; RSA has none.
    pub open spec fn spec_curve_name(self) -> Option<Seq<char>> {
        match self {
            Alg::RS256 | Alg::RS384 | Alg::RS512 => None,
            Alg::ES256 => Some("P-256"@),
            Alg::ES384 => Some("P-384"@),
            Alg::ES512 => Some("P-521"@),
            Alg::Ed25519 => Some("Ed25519"@),
            Alg::Ed448 => Some("Ed448"@),
        }
    }

    /// The JWK `crv` name for this algorithm, if its family has one.
    pub fn curve_name(&self) -> (r: Option<&'static str>)
        ensures
            r matches Some(s) ==> self.spec_curve_name() == Some(s@),
            r is None <==> self.spec_curve_name() is None,
    {
        match self {
            Alg::RS256 | Alg::RS384 | Alg::RS512 => None,
            Alg::ES256 => Some("P-256"),
            Alg::ES384 => Some("P-384"),
            Alg::ES512 => Some("P-521"),
            Alg::Ed25519 => Some("Ed25519"),
            Alg::Ed448 => Some("Ed448"),
        }
    }

    /// The width in bytes of one affine coordinate of the EC curve that the
    /// algorithm fixes, or of the raw Edwards public key; zero for RSA.
    pub open spec fn spec_coord_width(self) -> nat {
        match self {
            Alg::RS256 | Alg::RS384 | Alg::RS512 => 0,
            Alg::ES256 => 32,
            Alg::ES384 => 48,
            Alg::ES512 => 66,
            Alg::Ed25519 => 32,
            Alg::Ed448 => 57,
        }
    }

    /// The coordinate or raw-public-key width in bytes; zero for RSA.
    pub fn coord_width(&self) -> (r: usize)
        ensures
            r == self.spec_coord_width(),
    {
        match self {
            Alg::RS256 | Alg::RS384 | Alg::RS512 => 0,
            Alg::ES256 => 32,
            Alg::ES384 => 48,
            Alg::ES512 => 66,
            Alg::Ed25519 => 32,
            Alg::Ed448 => 57,
        }
    }
}

/// Relies on `str`'s `PartialEq`: two string slices compare equal exactly
/// when they hold the same bytes, hence the same character sequences.
#[verifier::external_body]
fn str_eq(a: &str, b: &str) -> (r: bool)
    ensures
        r == (a@ == b@),
{
    a == b
}

/// The algorithm named by an identifier string, if it is one of the eight.
pub open spec fn alg_from_name(s: Seq<char>) -> Option<Alg> {
    if s == "RS256"@ {
        Some(Alg::RS256)
    } else if s == "RS384"@ {
        Some(Alg::RS384)
    } else if s == "RS512"@ {
        Some(Alg::RS512)
    } else if s == "ES256"@ {
        Some(Alg::ES256)
    } else if s == "ES384"@ {
        Some(Alg::ES384)
    } else if s == "ES512"@ {
        Some(Alg::ES512)
    } else if s == "Ed25519"@ {
        Some(Alg::Ed25519)
    } else if s == "Ed448"@ {
        Some(Alg::Ed448)
    } else {
        None
    }
}

/// Parses an algorithm identifier; `None` for anything outside the closed set.
pub fn parse_alg(s: &str) -> (r: Option<Alg>)
    ensures
        r == alg_from_name(s@),
{
    if str_eq(s, "RS256") {
        Some(Alg::RS256)
    } else if str_eq(s, "RS384") {
        Some(Alg::RS384)
    } else if str_eq(s, "RS512") {
        Some(Alg::RS512)
    } else if str_eq(s, "ES256") {
        Some(Alg::ES256)
    } else if str_eq(s, "ES384") {
        Some(Alg::ES384)
    } else if str_eq(s, "ES512") {
        Some(Alg::ES512)
    } else if str_eq(s, "Ed25519") {
        Some(Alg::Ed25519)
    } else if str_eq(s, "Ed448") {
        Some(Alg::Ed448)
    } else {
        None
    }
}

} // verus!
