use nft_registry::identity::generate_nft_id;
use nft_registry::registry::Registry;
use nft_registry::types::Nft;

#[test]
fn first_mint_for_an_owner() {
    let mut registry = Registry::new();
    let owner: Vec<u8> = b"owner-a".to_vec();

    let nft = registry.create_nft(&owner, &b"Art1".to_vec(), &b"img1".to_vec());

    // The first-ever mint sees a count of zero.
    let expected_id = generate_nft_id(&owner, 0);
    assert_eq!(nft.id, expected_id);
    assert_eq!(nft.owner_id, owner);
    assert_eq!(nft.name, b"Art1".to_vec());
    assert_eq!(nft.image, b"img1".to_vec());

    assert_eq!(registry.nfts_by_owner(&owner), vec![expected_id.clone()]);
    let stored = registry.nft_by_id(&expected_id).expect("the record must be stored");
    assert_eq!(stored.owner_id, owner);
}

#[test]
fn second_mint_for_the_same_owner() {
    let mut registry = Registry::new();
    let owner: Vec<u8> = b"owner-a".to_vec();

    let first = registry.create_nft(&owner, &b"Art1".to_vec(), &b"img1".to_vec());
    let second = registry.create_nft(&owner, &b"Art2".to_vec(), &b"img2".to_vec());

    assert_eq!(second.id, generate_nft_id(&owner, 1));
    assert_ne!(second.id, first.id);
    assert_eq!(registry.nfts_by_owner(&owner), vec![first.id.clone(), second.id.clone()]);
}

#[test]
fn same_content_minted_by_another_owner() {
    let mut registry = Registry::new();
    let owner_a: Vec<u8> = b"owner-a".to_vec();
    let owner_b: Vec<u8> = b"owner-b".to_vec();

    let first = registry.create_nft(&owner_a, &b"Art1".to_vec(), &b"img1".to_vec());
    let third = registry.create_nft(&owner_b, &b"Art1".to_vec(), &b"img1".to_vec());

    // Identity depends on the owner and the sequence, not on the content.
    assert_eq!(third.id, generate_nft_id(&owner_b, 0));
    assert_ne!(third.id, first.id);
}

#[test]
fn mint_then_lookup_is_consistent() {
    let mut registry = Registry::new();
    let owner: Vec<u8> = b"owner-a".to_vec();

    let nft = registry.create_nft(&owner, &b"Art1".to_vec(), &b"img1".to_vec());

    let stored = registry.nft_by_id(&nft.id).expect("the record must be stored");
    assert_eq!(*stored, nft);
    let owned = registry.nfts_by_owner(&owner);
    assert_eq!(owned.last(), Some(&nft.id));
}

#[test]
fn owned_list_grows_by_one_per_mint_without_duplicates() {
    let mut registry = Registry::new();
    let owner: Vec<u8> = b"owner-a".to_vec();

    for round in 0..3u8 {
        let name: Vec<u8> = vec![b'n', round];
        let image: Vec<u8> = vec![b'i', round];
        registry.create_nft(&owner, &name, &image);
        let owned = registry.nfts_by_owner(&owner);
        assert_eq!(owned.len(), usize::from(round) + 1);
    }

    let owned = registry.nfts_by_owner(&owner);
    assert_ne!(owned[0], owned[1]);
    assert_ne!(owned[0], owned[2]);
    assert_ne!(owned[1], owned[2]);
}

#[test]
fn minting_for_one_owner_leaves_another_untouched() {
    let mut registry = Registry::new();
    let owner_a: Vec<u8> = b"owner-a".to_vec();
    let owner_b: Vec<u8> = b"owner-b".to_vec();

    let b_nft = registry.create_nft(&owner_b, &b"Beta".to_vec(), &b"beta".to_vec());
    let b_owned_before = registry.nfts_by_owner(&owner_b);

    registry.create_nft(&owner_a, &b"Art1".to_vec(), &b"img1".to_vec());
    registry.create_nft(&owner_a, &b"Art2".to_vec(), &b"img2".to_vec());

    assert_eq!(registry.nfts_by_owner(&owner_b), b_owned_before);
    let stored = registry.nft_by_id(&b_nft.id).expect("the record must still be stored");
    assert_eq!(*stored, b_nft);
}

#[test]
fn lookup_of_a_never_minted_id_is_absent() {
    let mut registry = Registry::new();
    let owner: Vec<u8> = b"owner-a".to_vec();
    registry.create_nft(&owner, &b"Art1".to_vec(), &b"img1".to_vec());

    let unknown_id: Vec<u8> = vec![0u8; 32];
    assert!(registry.nft_by_id(&unknown_id).is_none());
}

#[test]
fn owned_ids_of_an_owner_who_never_minted_is_empty() {
    let registry = Registry::new();
    let stranger: Vec<u8> = b"owner-z".to_vec();
    assert_eq!(registry.nfts_by_owner(&stranger), Vec::<Vec<u8>>::new());

    let mut registry = Registry::new();
    registry.create_nft(&b"owner-a".to_vec(), &b"Art1".to_vec(), &b"img1".to_vec());
    assert_eq!(registry.nfts_by_owner(&stranger), Vec::<Vec<u8>>::new());
}

#[test]
fn put_record_overwrites_silently() {
    let mut registry = Registry::new();
    let id: Vec<u8> = vec![7u8; 32];
    let first = Nft::new(id.clone(), b"owner-a".to_vec(), b"one".to_vec(), b"1".to_vec());
    let second = Nft::new(id.clone(), b"owner-b".to_vec(), b"two".to_vec(), b"2".to_vec());

    registry.put_record(first);
    registry.put_record(second);

    let stored = registry.nft_by_id(&id).expect("the record must be stored");
    assert_eq!(stored.owner_id, b"owner-b".to_vec());
    assert_eq!(stored.name, b"two".to_vec());
}

#[test]
fn append_owned_id_extends_the_list_in_order() {
    let mut registry = Registry::new();
    let owner: Vec<u8> = b"owner-a".to_vec();
    let first_id: Vec<u8> = vec![1u8; 32];
    let second_id: Vec<u8> = vec![2u8; 32];

    registry.add_nft_by_owner(&owner, first_id.clone());
    assert_eq!(registry.nfts_by_owner(&owner), vec![first_id.clone()]);
    registry.add_nft_by_owner(&owner, second_id.clone());
    assert_eq!(registry.nfts_by_owner(&owner), vec![first_id, second_id]);
}

#[test]
fn new_record_holds_exactly_the_given_fields() {
    let nft = Nft::new(vec![9u8; 32], b"owner-a".to_vec(), b"Art1".to_vec(), b"img1".to_vec());
    assert_eq!(nft.id, vec![9u8; 32]);
    assert_eq!(nft.owner_id, b"owner-a".to_vec());
    assert_eq!(nft.name, b"Art1".to_vec());
    assert_eq!(nft.image, b"img1".to_vec());
}
