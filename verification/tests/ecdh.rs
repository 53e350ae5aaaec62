use xed25519::edwards_to_montgomery;
use xed25519::montgomery_to_edwards;
use xed25519::derive_secret;
use xed25519::generate_secret;
use xed25519::xed25519_ecdh;
use xed25519::EcdhError;

/// The compressed Edwards encoding of the standard base point.
fn edwards_base() -> Vec<u8> {
    let mut b = vec![0x66u8; 32];
    b[0] = 0x58;
    b
}

/// The X25519 base point: u = 9, little endian.
fn montgomery_base() -> Vec<u8> {
    let mut b = vec![0u8; 32];
    b[0] = 9;
    b
}

fn hex32(s: &str) -> Vec<u8> {
    assert_eq!(s.len(), 64);
    let digits: Vec<u8> = s
        .bytes()
        .map(|c| match c {
            b'0'..=b'9' => c - b'0',
            b'a'..=b'f' => c - b'a' + 10,
            _ => panic!("not a hex digit"),
        })
        .collect();
    digits.chunks(2).map(|p| (p[0] << 4) | p[1]).collect()
}

fn to_array(v: &[u8]) -> [u8; 32] {
    let mut a = [0u8; 32];
    a.copy_from_slice(v);
    a
}

#[test]
fn base_point_edwards_to_montgomery() {
    let r = edwards_to_montgomery(&edwards_base());
    assert_eq!(r, Ok(montgomery_base()));
}

#[test]
fn base_point_montgomery_to_edwards() {
    let r = montgomery_to_edwards(&montgomery_base(), 0);
    assert_eq!(r, Ok(edwards_base()));
}

#[test]
fn round_trip_on_generated_scalars() {
    for _ in 0..8 {
        let s = generate_secret();
        let local_mont = x25519_dalek::x25519(to_array(&s), to_array(&montgomery_base())).to_vec();
        let ed = montgomery_to_edwards(&local_mont, 0).expect("honest key must lift");
        let back = edwards_to_montgomery(&ed).expect("conversion output must decode");
        assert_eq!(back, local_mont);
    }
}

#[test]
fn agreement_symmetry() {
    let raw_a = vec![0x11u8; 32];
    let raw_b = vec![0x22u8; 32];
    let pub_a = xed25519_ecdh(edwards_base(), Some(raw_a.clone())).unwrap().public;
    let pub_b = xed25519_ecdh(edwards_base(), Some(raw_b.clone())).unwrap().public;
    let from_a = xed25519_ecdh(pub_b, Some(raw_a)).unwrap();
    let from_b = xed25519_ecdh(pub_a, Some(raw_b)).unwrap();
    assert_eq!(from_a.shared, from_b.shared);
}

#[test]
fn agreement_is_deterministic() {
    let raw = vec![0x5au8; 32];
    let r1 = xed25519_ecdh(edwards_base(), Some(raw.clone())).unwrap();
    let r2 = xed25519_ecdh(edwards_base(), Some(raw)).unwrap();
    assert_eq!(r1.public, r2.public);
    assert_eq!(r1.shared, r2.shared);
}

#[test]
fn invalid_peer_length() {
    assert_eq!(xed25519_ecdh(vec![0u8; 31], None), Err(EcdhError::InvalidLength));
    assert_eq!(xed25519_ecdh(vec![0u8; 33], None), Err(EcdhError::InvalidLength));
    assert_eq!(xed25519_ecdh(Vec::new(), None), Err(EcdhError::InvalidLength));
}

#[test]
fn invalid_secret_length() {
    let r = xed25519_ecdh(edwards_base(), Some(vec![0u8; 31]));
    assert_eq!(r, Err(EcdhError::InvalidLength));
    let r = xed25519_ecdh(edwards_base(), Some(vec![0u8; 33]));
    assert_eq!(r, Err(EcdhError::InvalidLength));
    assert_eq!(derive_secret(&vec![0u8; 16]), Err(EcdhError::InvalidLength));
}

#[test]
fn both_inputs_wrong_length() {
    let r = xed25519_ecdh(vec![0u8; 31], Some(vec![0u8; 31]));
    assert_eq!(r, Err(EcdhError::InvalidLength));
}

/// The smallest y-coordinate byte pattern that is not on the curve, found
/// with the curve library itself, must be rejected.
#[test]
fn invalid_point_rejected() {
    let mut candidate = [0u8; 32];
    let mut y: u8 = 0;
    loop {
        candidate[0] = y;
        if curve25519_dalek::edwards::CompressedEdwardsY(candidate)
            .decompress()
            .is_none()
        {
            break;
        }
        y += 1;
    }
    let bad = candidate.to_vec();
    assert_eq!(edwards_to_montgomery(&bad), Err(EcdhError::InvalidPoint));
    assert_eq!(xed25519_ecdh(bad, Some(vec![7u8; 32])), Err(EcdhError::InvalidPoint));
}

#[test]
fn generated_secret_scenario() {
    let r1 = xed25519_ecdh(edwards_base(), None).unwrap();
    let r2 = xed25519_ecdh(edwards_base(), None).unwrap();
    assert_eq!(r1.public.len(), 32);
    assert_eq!(r1.shared.len(), 32);
    assert_eq!(r2.public.len(), 32);
    assert_eq!(r2.shared.len(), 32);
    assert_ne!(r1.public, r2.public);
    assert_ne!(r1.shared, r2.shared);
}

#[test]
fn clamping_of_derived_secret() {
    let all_ones = derive_secret(&vec![0xffu8; 32]).unwrap();
    assert_eq!(all_ones[0], 0xf8);
    assert_eq!(all_ones[31], 0x7f);
    for i in 1..31 {
        assert_eq!(all_ones[i], 0xff);
    }

    let all_zero = derive_secret(&vec![0u8; 32]).unwrap();
    assert_eq!(all_zero[0], 0);
    assert_eq!(all_zero[31], 0x40);

    let generated = generate_secret();
    assert_eq!(generated.len(), 32);
    assert_eq!(generated[0] & 0x07, 0);
    assert_eq!(generated[31] & 0x80, 0);
    assert_eq!(generated[31] & 0x40, 0x40);
}

/// The standard Diffie-Hellman test vectors: Alice's private key against
/// Bob's public key must give the published shared secret, and Alice's
/// output public key must be her published Montgomery public key.
#[test]
fn known_answer_vectors() {
    let alice_priv = hex32("77076d0a7318a57d3c16c17251b26645df4c2f87ebc0992ab177fba51db92c2a");
    let alice_pub = hex32("8520f0098930a754748b7ddcb43ef75a0dbf3a0d26381af4eba4a98eaa9b4e6a");
    let bob_pub = hex32("de9edb7d7b7dc1b4d35b61c2ece435373f8343c85b78674dadfc7e146f882b4f");
    let shared = hex32("4a5d9d5ba4ce2de1728e3bf480350f25e07e21c947d19e3376f09b3c1e161742");

    let bob_pub_edwards = montgomery_to_edwards(&bob_pub, 0).unwrap();
    let r = xed25519_ecdh(bob_pub_edwards, Some(alice_priv)).unwrap();
    assert_eq!(r.shared, shared);
    assert_eq!(edwards_to_montgomery(&r.public), Ok(alice_pub));
}

/// The library's shared secret agrees with the Diffie-Hellman function of the
/// underlying crate called directly on the same inputs.
#[test]
fn shared_secret_matches_reference() {
    let raw = vec![0x42u8; 32];
    let peer_ed = edwards_base();
    let peer_mont = edwards_to_montgomery(&peer_ed).unwrap();
    let expected = x25519_dalek::x25519(to_array(&raw), to_array(&peer_mont)).to_vec();
    let r = xed25519_ecdh(peer_ed, Some(raw)).unwrap();
    assert_eq!(r.shared, expected);
}
