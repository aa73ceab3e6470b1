use blake2b_hasher::{Blake2b256, Blake2b512, Digest, Hasher};

fn from_hex(s: &str) -> Vec<u8> {
    (0..s.len() / 2)
        .map(|i| u8::from_str_radix(&s[2 * i..2 * i + 2], 16).unwrap())
        .collect()
}

const HELLO_256: &str = "256c83b297114d201b30179f3f0ef0cace9783622da5974326b436178aeef610";
const HELLO_512: &str = "021ced8799296ceca557832ab941a50b4a11f83478cf141f51f933f653ab9fbcc05a037cddbed06e309bf334942c4e58cdf1a46e237911ccd7fcf9787cbc7fd0";

#[test]
fn test_blake2b256() {
    let hash = Blake2b256::digest(b"hello world");
    let mut hasher = Blake2b256::default();
    hasher.write(b"hello world");
    let hash2 = hasher.sum();
    assert_eq!(hash, hash2);
}

#[test]
fn test_blake2b512() {
    let hash = Blake2b512::digest(b"hello world");
    let mut hasher = Blake2b512::default();
    hasher.write(b"hello world");
    let hash2 = hasher.sum();
    assert_eq!(hash, hash2);
}

#[test]
fn known_value_256() {
    let one_shot = Blake2b256::digest(b"hello world");
    let mut hasher = Blake2b256::default();
    hasher.write(b"hello world");
    let streamed = hasher.sum();
    assert_eq!(one_shot.as_bytes(), &from_hex(HELLO_256)[..]);
    assert_eq!(streamed.as_bytes(), &from_hex(HELLO_256)[..]);
}

#[test]
fn known_value_512() {
    let d = Blake2b512::digest(b"hello world");
    assert_eq!(d.as_bytes(), &from_hex(HELLO_512)[..]);
}

#[test]
fn two_chunks_match_one_write() {
    let mut h = Blake2b256::default();
    h.write(b"hello ");
    h.write(b"world");
    assert_eq!(h.sum(), Blake2b256::digest(b"hello world"));

    let mut h = Blake2b512::default();
    h.write(b"hello ");
    h.write(b"world");
    assert_eq!(h.sum(), Blake2b512::digest(b"hello world"));
}

#[test]
fn every_split_point_matches_one_write() {
    let data: Vec<u8> = (0..300u32).map(|i| (i * 7 + 3) as u8).collect();
    let whole = Blake2b256::digest(&data);
    for cut in 0..=data.len() {
        let mut h = Blake2b256::default();
        h.write(&data[..cut]);
        h.write(&[]);
        h.write(&data[cut..]);
        assert_eq!(h.sum(), whole);
    }
}

#[test]
fn byte_at_a_time_matches_one_write() {
    let data: Vec<u8> = (0..200u32).map(|i| (i * 13) as u8).collect();
    let mut h = Blake2b512::default();
    for b in &data {
        h.write(&[*b]);
    }
    assert_eq!(h.sum(), Blake2b512::digest(&data));
}

#[test]
fn repeated_hashing_is_deterministic() {
    let a = Blake2b256::digest(b"determinism");
    let b = Blake2b256::digest(b"determinism");
    assert_eq!(a, b);
    let c = Blake2b512::digest(b"determinism");
    let d = Blake2b512::digest(b"determinism");
    assert_eq!(c, d);
}

#[test]
fn digest_lengths_are_fixed() {
    assert_eq!(Blake2b256::digest(b"").as_bytes().len(), 32);
    assert_eq!(Blake2b512::digest(b"").as_bytes().len(), 64);
    assert_eq!(Blake2b256::default().sum().as_bytes().len(), 32);
    assert_eq!(Blake2b512::digest(&[0u8; 1000]).as_bytes().len(), 64);
}

#[test]
fn distinct_inputs_give_distinct_digests() {
    assert_ne!(
        Blake2b256::digest(b"hello world"),
        Blake2b256::digest(b"hello world!")
    );
    assert_ne!(
        Blake2b512::digest(b"hello world"),
        Blake2b512::digest(b"hello world!")
    );
}

#[test]
fn short_digest_is_not_a_truncation() {
    let short = Blake2b256::digest(b"hello world");
    let long = Blake2b512::digest(b"hello world");
    assert_ne!(short.as_bytes(), &long.as_bytes()[..32]);
}

#[test]
fn digest_from_bytes_round_trip() {
    let bytes: Vec<u8> = (0..32u8).collect();
    let d = Digest::<32>::from_slice(&bytes).unwrap();
    assert_eq!(d.as_bytes(), &bytes[..]);
    let e = Digest::<32>::new(bytes.clone());
    assert_eq!(d, e);
    assert_eq!(d.clone(), d);
}

#[test]
fn digest_from_wrong_length_fails() {
    assert!(Digest::<32>::from_slice(&[0u8; 31]).is_none());
    assert!(Digest::<32>::from_slice(&[0u8; 33]).is_none());
    assert!(Digest::<64>::from_slice(&[0u8; 32]).is_none());
    assert!(Digest::<32>::from_slice(&[]).is_none());
}

#[test]
fn digests_differing_in_one_byte_are_unequal() {
    let mut bytes = vec![5u8; 64];
    let a = Digest::<64>::from_slice(&bytes).unwrap();
    bytes[63] = 6;
    let b = Digest::<64>::from_slice(&bytes).unwrap();
    assert_ne!(a, b);
}
