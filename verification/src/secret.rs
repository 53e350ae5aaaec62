use vstd::prelude::*;
use crate::errors::EcdhError;

verus! {

/// The X25519 clamping of a 32-byte scalar: the lowest three bits cleared,
/// the highest bit cleared, and the second-highest bit set; every other byte
/// is kept as it is.
pub open spec fn clamp_spec(s: Seq<u8>) -> Seq<u8> {
    Seq::new(
        s.len(),
        |i: int|
            if i == 0 {
                s[0] & 0xf8
            } else if i == 31 {
                (s[31] & 0x7f) | 0x40
            } else {
                s[i]
            },
    )
}

/// A 32-byte scalar in clamped form: the lowest three bits are clear, the
/// highest bit is clear, and the second-highest bit is set.
pub open spec fn is_clamped(s: Seq<u8>) -> bool {
    &&& s.len() == 32
    &&& s[0] & 0x07 == 0
    &&& s[31] & 0x80 == 0
    &&& s[31] & 0x40 == 0x40
}

/// Clamping a 32-byte scalar always yields a clamped scalar, whatever the raw
/// bytes were.
pub proof fn lemma_clamp_is_clamped(s: Seq<u8>)
    requires
        s.len() == 32,
    ensures
        is_clamped(clamp_spec(s)),
{
    let b0 = s[0];
    let b31 = s[31];
    assert((b0 & 0xf8) & 0x07 == 0) by (bit_vector);
    assert(((b31 & 0x7f) | 0x40) & 0x80 == 0) by (bit_vector);
    assert(((b31 & 0x7f) | 0x40) & 0x40 == 0x40) by (bit_vector);
}

/// Applies X25519 clamping to 32 raw bytes.
fn clamp_bytes(raw: &Vec<u8>) -> (r: Vec<u8>)
    requires
        raw@.len() == 32,
    ensures
        r@ == clamp_spec(raw@),
{
    let mut out: Vec<u8> = Vec::new();
    let mut i: usize = 0;
    while i < 32
        invariant
            raw@.len() == 32,
            i <= 32,
            out@.len() == i,
            forall|j: int| 0 <= j < i ==> out@[j] == clamp_spec(raw@)[j],
        decreases 32 - i,
    {
        let b = raw[i];
        let c: u8 = if i == 0 {
            b & 0xf8
        } else if i == 31 {
            (b & 0x7f) | 0x40
        } else {
            b
        };
        out.push(c);
        i += 1;
    }
    proof {
        assert(out@ =~= clamp_spec(raw@));
    }
    out
}

/// Derives a private scalar from exactly 32 caller-supplied raw bytes by
/// applying X25519 clamping; any other length is rejected before any curve
/// computation.
pub fn derive_secret(raw: &Vec<u8>) -> (r: Result<Vec<u8>, EcdhError>)
    ensures
        r is Ok <==> raw@.len() == 32,
        r matches Ok(s) ==> s@ == clamp_spec(raw@) && is_clamped(s@),
        raw@.len() != 32 ==> r == Err::<Vec<u8>, EcdhError>(EcdhError::InvalidLength),
{
    if raw.len() != 32 {
        return Err(EcdhError::InvalidLength);
    }
    let s = clamp_bytes(raw);
    proof {
        lemma_clamp_is_clamped(raw@);
    }
    Ok(s)
}

/// Relies on rand_core's `OsRng` (through `RngCore::fill_bytes`): draws the
/// bytes from the operating system's secure random source.  Nothing is
/// assumed of the bytes beyond their count.
#[verifier::external_body]
fn random_bytes_32() -> (r: Vec<u8>)
    ensures
        r@.len() == 32,
{
    let mut b = [0u8; 32];
    rand_core::RngCore::fill_bytes(&mut rand_core::OsRng, &mut b);
    b.to_vec()
}

/// Generates a fresh private scalar: 32 bytes drawn from the secure random
/// source, then clamped.
pub fn generate_secret() -> (r: Vec<u8>)
    ensures
        is_clamped(r@),
{
    let raw = random_bytes_32();
    let s = clamp_bytes(&raw);
    proof {
        lemma_clamp_is_clamped(raw@);
    }
    s
}

} // verus!
