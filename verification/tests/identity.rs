use nft_registry::identity::generate_nft_id;

#[test]
fn generate_is_deterministic() {
    let owner: Vec<u8> = b"alice-principal".to_vec();
    let first = generate_nft_id(&owner, 7);
    let second = generate_nft_id(&owner, 7);
    assert_eq!(first, second);
}

#[test]
fn generate_output_is_a_32_byte_digest() {
    let owner: Vec<u8> = b"x".to_vec();
    // The serialized input here is 17 bytes long, so a 32-byte result also
    // shows the digest is not the input handed back.
    let id = generate_nft_id(&owner, 0);
    assert_eq!(id.len(), 32);
    let long_owner: Vec<u8> = vec![5u8; 100];
    assert_eq!(generate_nft_id(&long_owner, 1).len(), 32);
}

#[test]
fn generate_is_sensitive_to_the_sequence() {
    let owner: Vec<u8> = b"alice-principal".to_vec();
    assert_ne!(generate_nft_id(&owner, 0), generate_nft_id(&owner, 1));
    assert_ne!(generate_nft_id(&owner, 1), generate_nft_id(&owner, 2));
}

#[test]
fn generate_distinguishes_owners() {
    let a: Vec<u8> = b"alice-principal".to_vec();
    let b: Vec<u8> = b"bob-principal".to_vec();
    assert_ne!(generate_nft_id(&a, 0), generate_nft_id(&b, 0));
}

#[test]
fn generate_matches_blake2b_of_the_serialized_input() {
    // The documented serialization: eight little-endian bytes of the owner
    // length, the owner bytes, eight little-endian bytes of the sequence.
    let owner: Vec<u8> = b"ab".to_vec();
    let mut seed: Vec<u8> = Vec::new();
    seed.extend_from_slice(&2u64.to_le_bytes());
    seed.extend_from_slice(b"ab");
    seed.extend_from_slice(&3u64.to_le_bytes());
    let expected = blake2b_simd::Params::new()
        .hash_length(32)
        .hash(&seed)
        .as_bytes()
        .to_vec();
    assert_eq!(generate_nft_id(&owner, 3), expected);
}

#[test]
fn generate_distinguishes_owners_whose_bytes_concatenate_alike() {
    // "ab" as owner with count 0 and "a" as owner must not collide merely
    // because one byte string is a prefix of the other: the length prefix
    // keeps the serialization unambiguous.
    let ab: Vec<u8> = b"ab".to_vec();
    let a: Vec<u8> = b"a".to_vec();
    assert_ne!(generate_nft_id(&ab, 0), generate_nft_id(&a, 0));
}
