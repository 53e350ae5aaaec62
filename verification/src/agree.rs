use vstd::prelude::*;
use crate::convert::edwards_decodes;
use crate::convert::edwards_to_montgomery;
use crate::convert::edwards_to_montgomery_of;
use crate::convert::montgomery_lifts;
use crate::convert::montgomery_to_edwards;
use crate::convert::montgomery_to_edwards_of;
use crate::errors::EcdhError;
use crate::secret::clamp_spec;
use crate::secret::derive_secret;
use crate::secret::generate_secret;
use crate::secret::is_clamped;

verus! {

/// What x25519_dalek's `x25519` function returns for scalar bytes `k` and
/// Montgomery u-coordinate bytes `u`: the RFC 7748 Diffie-Hellman output,
/// a function of the two inputs alone.
pub uninterp spec fn x25519_of(k: Seq<u8>, u: Seq<u8>) -> Seq<u8>;

/// Relies on x25519_dalek's `x25519`: the RFC 7748 scalar-multiplication
/// function, whose result depends on the scalar and u-coordinate bytes alone.
#[verifier::external_body]
fn x25519_mul(k: &Vec<u8>, u: &Vec<u8>) -> (r: Vec<u8>)
    requires
        k@.len() == 32,
        u@.len() == 32,
    ensures
        r@ == x25519_of(k@, u@),
        r@.len() == 32,
{
    let mut ka = [0u8; 32];
    ka.copy_from_slice(&k[..]);
    let mut ua = [0u8; 32];
    ua.copy_from_slice(&u[..]);
    x25519_dalek::x25519(ka, ua).to_vec()
}

/// The 32-byte little-endian u-coordinate of the X25519 base point (u = 9).
pub open spec fn base_point_u() -> Seq<u8> {
    Seq::new(32, |i: int| if i == 0 { 9u8 } else { 0u8 })
}

/// Builds the 32-byte u-coordinate of the X25519 base point.
fn base_point_bytes() -> (r: Vec<u8>)
    ensures
        r@ == base_point_u(),
{
    let mut out: Vec<u8> = Vec::new();
    out.push(9u8);
    let mut i: usize = 1;
    while i < 32
        invariant
            1 <= i <= 32,
            out@.len() == i,
            out@[0] == 9u8,
            forall|j: int| 1 <= j < i ==> out@[j] == 0u8,
        decreases 32 - i,
    {
        out.push(0u8);
        i += 1;
    }
    proof {
        assert(out@ =~= base_point_u());
    }
    out
}

/// The outcome of a key agreement: the local public key in Edwards form and
/// the X25519 shared secret, each 32 bytes.
#[derive(Debug, Clone, PartialEq, Eq)]
pub struct ECDHKeys {
    /// The local Montgomery public key, converted to Edwards form with sign
    /// bit 0.
    pub public: Vec<u8>,
    /// The Diffie-Hellman shared secret.
    pub shared: Vec<u8>,
}

/// The agreement outcome for a decodable peer key and a given local scalar:
/// the local public key is the base point multiplied by the scalar and
/// converted to Edwards form with sign bit 0, and the shared secret is the
/// peer's Montgomery point multiplied by the scalar.  When the local
/// Montgomery public key has no Edwards preimage for sign bit 0, the
/// agreement fails rather than substitute a default point.
pub open spec fn agree_spec(peer: Seq<u8>, s: Seq<u8>) -> Result<(Seq<u8>, Seq<u8>), EcdhError> {
    let local_mont = x25519_of(s, base_point_u());
    if montgomery_lifts(local_mont, 0) {
        Ok(
            (
                montgomery_to_edwards_of(local_mont, 0),
                x25519_of(s, edwards_to_montgomery_of(peer)),
            ),
        )
    } else {
        Err(EcdhError::InvalidPoint)
    }
}

/// Whether an executable agreement result carries exactly the outcome that
/// `agree_spec` gives.
pub open spec fn agrees_with(
    r: Result<ECDHKeys, EcdhError>,
    model: Result<(Seq<u8>, Seq<u8>), EcdhError>,
) -> bool {
    match (r, model) {
        (Ok(keys), Ok(pair)) => keys.public@ == pair.0 && keys.shared@ == pair.1,
        (Err(e), Err(f)) => e == f,
        _ => false,
    }
}

/// Performs the cross-form key agreement.
///
/// The peer's public key must be the 32-byte compressed Edwards encoding of a
/// valid curve point; it is converted to its Montgomery u-coordinate.  The
/// local scalar is derived from the supplied raw bytes (clamped) or freshly
/// generated when none are supplied.  The shared secret is the X25519 product
/// of the scalar and the peer's Montgomery point, and the local public key is
/// returned in Edwards form with sign bit 0.
///
/// Length errors are detected before any curve computation; point errors are
/// never replaced by a default value.
pub fn xed25519_ecdh(peer_public_key: Vec<u8>, client_private_key: Option<Vec<u8>>) -> (r: Result<
    ECDHKeys,
    EcdhError,
>)
    ensures
        (peer_public_key@.len() != 32 || (client_private_key matches Some(k) && k@.len() != 32))
            ==> r == Err::<ECDHKeys, EcdhError>(EcdhError::InvalidLength),
        peer_public_key@.len() == 32 && (client_private_key matches Some(k) ==> k@.len() == 32)
            && !edwards_decodes(peer_public_key@) ==> r == Err::<ECDHKeys, EcdhError>(
            EcdhError::InvalidPoint,
        ),
        client_private_key matches Some(k) ==> (peer_public_key@.len() == 32
            && edwards_decodes(peer_public_key@) && k@.len() == 32 ==> agrees_with(
            r,
            agree_spec(peer_public_key@, clamp_spec(k@)),
        )),
        peer_public_key@.len() == 32 && edwards_decodes(peer_public_key@)
            && client_private_key is None ==> exists|s: Seq<u8>|
            is_clamped(s) && agrees_with(r, agree_spec(peer_public_key@, s)),
        r matches Ok(keys) ==> keys.public@.len() == 32 && keys.shared@.len() == 32,
{
    if peer_public_key.len() != 32 {
        return Err(EcdhError::InvalidLength);
    }
    let scalar = match &client_private_key {
        None => generate_secret(),
        Some(raw) => match derive_secret(raw) {
            Ok(s) => s,
            Err(e) => {
                return Err(e);
            },
        },
    };
    let peer_montgomery = match edwards_to_montgomery(&peer_public_key) {
        Ok(m) => m,
        Err(e) => {
            return Err(e);
        },
    };
    let base = base_point_bytes();
    let local_montgomery = x25519_mul(&scalar, &base);
    let shared = x25519_mul(&scalar, &peer_montgomery);
    let public = match montgomery_to_edwards(&local_montgomery, 0) {
        Ok(p) => p,
        Err(e) => {
            return Err(e);
        },
    };
    let keys = ECDHKeys { public, shared };
    proof {
        if client_private_key is None {
            assert(agrees_with(Ok(keys), agree_spec(peer_public_key@, scalar@)));
        }
    }
    Ok(keys)
}

/// Determinism: two agreement results for the same peer key and the same raw
/// local secret carry identical public keys and shared secrets, or the
/// identical error.
pub proof fn lemma_agree_deterministic(
    peer: Seq<u8>,
    raw: Seq<u8>,
    r1: Result<ECDHKeys, EcdhError>,
    r2: Result<ECDHKeys, EcdhError>,
)
    requires
        agrees_with(r1, agree_spec(peer, clamp_spec(raw))),
        agrees_with(r2, agree_spec(peer, clamp_spec(raw))),
    ensures
        r1 is Ok <==> r2 is Ok,
        r1 matches Ok(k1) ==> (r2 matches Ok(k2) ==> k1.public@ == k2.public@ && k1.shared@
            == k2.shared@),
        r1 matches Err(e1) ==> (r2 matches Err(e2) ==> e1 == e2),
{
}

} // verus!
