use vstd::prelude::*;
use crate::errors::EcdhError;

verus! {

/// Whether 32 bytes are the compressed encoding of a valid point on the
/// Edwards form of the curve, so that decompression succeeds.
pub uninterp spec fn edwards_decodes(b: Seq<u8>) -> bool;

/// The 32-byte Montgomery u-coordinate of the Edwards point encoded by `b`,
/// under the birational map; meaningful when `edwards_decodes(b)` holds.
pub uninterp spec fn edwards_to_montgomery_of(b: Seq<u8>) -> Seq<u8>;

/// Whether the Montgomery u-coordinate `u` has an Edwards preimage for the
/// given sign bit, so that the inverse birational map is defined there.
pub uninterp spec fn montgomery_lifts(u: Seq<u8>, sign: u8) -> bool;

/// The compressed 32-byte Edwards encoding of the preimage of `u` with the
/// given sign bit; meaningful when `montgomery_lifts(u, sign)` holds.
pub uninterp spec fn montgomery_to_edwards_of(u: Seq<u8>, sign: u8) -> Seq<u8>;

/// Relies on curve25519_dalek's `CompressedEdwardsY::decompress`, which
/// succeeds exactly when the bytes encode a valid Edwards point, and on
/// `EdwardsPoint::to_montgomery`, the Edwards-to-Montgomery birational map;
/// both depend on the input bytes alone.
#[verifier::external_body]
fn decompress_to_montgomery(b: &Vec<u8>) -> (r: Option<Vec<u8>>)
    requires
        b@.len() == 32,
    ensures
        r is Some <==> edwards_decodes(b@),
        r matches Some(m) ==> m@ == edwards_to_montgomery_of(b@) && m@.len() == 32,
{
    let mut a = [0u8; 32];
    a.copy_from_slice(&b[..]);
    curve25519_dalek::edwards::CompressedEdwardsY(a)
        .decompress()
        .map(|p| p.to_montgomery().to_bytes().to_vec())
}

/// Relies on curve25519_dalek's `MontgomeryPoint::to_edwards`, the inverse
/// birational map, which succeeds exactly when `u` lies on the curve rather
/// than its quadratic twist, and on `EdwardsPoint::compress`; both depend on
/// the inputs alone.
#[verifier::external_body]
fn lift_to_edwards(u: &Vec<u8>, sign: u8) -> (r: Option<Vec<u8>>)
    requires
        u@.len() == 32,
        sign == 0 || sign == 1,
    ensures
        r is Some <==> montgomery_lifts(u@, sign),
        r matches Some(e) ==> e@ == montgomery_to_edwards_of(u@, sign) && e@.len() == 32,
{
    let mut a = [0u8; 32];
    a.copy_from_slice(&u[..]);
    curve25519_dalek::montgomery::MontgomeryPoint(a)
        .to_edwards(sign)
        .map(|p| p.compress().to_bytes().to_vec())
}

/// Decompresses a 32-byte Edwards public key and returns the 32-byte
/// Montgomery u-coordinate of the same point under the birational map.
/// Bytes that do not decompress to a valid Edwards point are rejected.
pub fn edwards_to_montgomery(point: &Vec<u8>) -> (r: Result<Vec<u8>, EcdhError>)
    requires
        point@.len() == 32,
    ensures
        r is Ok <==> edwards_decodes(point@),
        r matches Ok(m) ==> m@ == edwards_to_montgomery_of(point@) && m@.len() == 32,
        r is Err ==> r == Err::<Vec<u8>, EcdhError>(EcdhError::InvalidPoint),
{
    match decompress_to_montgomery(point) {
        Some(m) => Ok(m),
        None => Err(EcdhError::InvalidPoint),
    }
}

/// Applies the inverse birational map to a 32-byte Montgomery u-coordinate,
/// selecting the Edwards preimage with the given sign bit, and returns its
/// compressed 32-byte encoding.  A u-coordinate with no Edwards preimage is
/// rejected, never replaced by a default point.
pub fn montgomery_to_edwards(point: &Vec<u8>, sign_bit: u8) -> (r: Result<Vec<u8>, EcdhError>)
    requires
        point@.len() == 32,
        sign_bit == 0 || sign_bit == 1,
    ensures
        r is Ok <==> montgomery_lifts(point@, sign_bit),
        r matches Ok(e) ==> e@ == montgomery_to_edwards_of(point@, sign_bit) && e@.len() == 32,
        r is Err ==> r == Err::<Vec<u8>, EcdhError>(EcdhError::InvalidPoint),
{
    match lift_to_edwards(point, sign_bit) {
        Some(e) => Ok(e),
        None => Err(EcdhError::InvalidPoint),
    }
}

} // verus!
