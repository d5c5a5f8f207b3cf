//! The laws the registry obeys, stated over its mathematical model and
//! proved once for every state. `create_nft` pins its result and its new
//! state to `minted_nft` and `mint_post`, so each law below speaks of every
//! mint the library can perform.

use vstd::prelude::*;
use crate::identity::nft_id_of;
use crate::registry::RegistryModel;
use crate::registry::empty_registry;
use crate::registry::mint_post;
use crate::registry::minted_nft;
use crate::registry::owned_ids_of;
use crate::registry::record_at;

verus! {

/// Registry consistency: after a mint, the record table holds the returned
/// record under its id, and that id is the last entry of the owner's list.
pub proof fn lemma_mint_registry_consistency(m: RegistryModel, owner: Seq<u8>, name: Seq<u8>, image: Seq<u8>)
    ensures
        record_at(mint_post(m, owner, name, image), minted_nft(m, owner, name, image).id)
            == Some(minted_nft(m, owner, name, image)),
        owned_ids_of(mint_post(m, owner, name, image), owner).len() > 0,
        owned_ids_of(mint_post(m, owner, name, image), owner).last()
            == minted_nft(m, owner, name, image).id,
{
}

/// One mint grows the owner's list by exactly one entry, and keeps every
/// entry that was already there, in its place.
pub proof fn lemma_mint_monotonic_growth(m: RegistryModel, owner: Seq<u8>, name: Seq<u8>, image: Seq<u8>)
    ensures
        owned_ids_of(mint_post(m, owner, name, image), owner).len()
            == owned_ids_of(m, owner).len() + 1,
        forall|k: int| 0 <= k < owned_ids_of(m, owner).len()
            ==> owned_ids_of(mint_post(m, owner, name, image), owner)[k] == owned_ids_of(m, owner)[k],
{
}

/// The state after replaying a sequence of mint requests, each a
/// `(name, image)` pair, for one owner.
pub open spec fn mint_all(m: RegistryModel, owner: Seq<u8>, requests: Seq<(Seq<u8>, Seq<u8>)>) -> RegistryModel
    decreases requests.len(),
{
    if requests.len() == 0 {
        m
    } else {
        mint_post(mint_all(m, owner, requests.drop_last()), owner, requests.last().0, requests.last().1)
    }
}

/// Monotonic growth: N successful mints for one owner grow the owner's list
/// by exactly N entries.
pub proof fn lemma_monotonic_growth(m: RegistryModel, owner: Seq<u8>, requests: Seq<(Seq<u8>, Seq<u8>)>)
    ensures
        owned_ids_of(mint_all(m, owner, requests), owner).len()
            == owned_ids_of(m, owner).len() + requests.len(),
    decreases requests.len(),
{
    if requests.len() > 0 {
        lemma_monotonic_growth(m, owner, requests.drop_last());
    }
}

/// From a fresh registry, N mints for one owner leave the owner exactly the
/// ids derived from counts 0 through N-1, in that order.
pub proof fn lemma_owned_ids_are_derived(owner: Seq<u8>, requests: Seq<(Seq<u8>, Seq<u8>)>)
    ensures
        owned_ids_of(mint_all(empty_registry(), owner, requests), owner)
            == Seq::new(requests.len(), |k: int| nft_id_of(owner, k as u64)),
    decreases requests.len(),
{
    if requests.len() > 0 {
        lemma_owned_ids_are_derived(owner, requests.drop_last());
    }
    assert(owned_ids_of(mint_all(empty_registry(), owner, requests), owner)
        =~= Seq::new(requests.len(), |k: int| nft_id_of(owner, k as u64)));
}

/// Entries at distinct positions of an owner's list are digests of distinct
/// inputs: from a fresh registry, a duplicate entry would need the digest
/// itself to collide.
pub proof fn lemma_owned_ids_feed_distinct_inputs(
    owner: Seq<u8>,
    requests: Seq<(Seq<u8>, Seq<u8>)>,
    k1: int,
    k2: int,
)
    requires
        owner.len() <= u64::MAX,
        requests.len() <= u64::MAX,
        0 <= k1 < k2 < requests.len(),
    ensures
        owned_ids_of(mint_all(empty_registry(), owner, requests), owner)[k1]
            == nft_id_of(owner, k1 as u64),
        owned_ids_of(mint_all(empty_registry(), owner, requests), owner)[k2]
            == nft_id_of(owner, k2 as u64),
        crate::identity::preimage(owner, k1 as u64) != crate::identity::preimage(owner, k2 as u64),
{
    lemma_owned_ids_are_derived(owner, requests);
    crate::identity::lemma_sequence_sensitivity(owner, k1 as u64, k2 as u64);
}

/// Independence: a mint for one owner never alters another owner's list, nor
/// any record stored under any other id.
pub proof fn lemma_mint_independence(
    m: RegistryModel,
    owner: Seq<u8>,
    name: Seq<u8>,
    image: Seq<u8>,
    other: Seq<u8>,
    id: Seq<u8>,
)
    requires
        other != owner,
        id != minted_nft(m, owner, name, image).id,
    ensures
        owned_ids_of(mint_post(m, owner, name, image), other) == owned_ids_of(m, other),
        record_at(mint_post(m, owner, name, image), id) == record_at(m, id),
{
}

/// Cross-table consistency: every id standing in some owner's list has a
/// record in the record table, and that record names the same owner.
pub open spec fn consistent(m: RegistryModel) -> bool {
    forall|owner: Seq<u8>, k: int|
        m.nfts_by_owner.contains_key(owner) && 0 <= k < m.nfts_by_owner[owner].len() ==> {
            let id = #[trigger] m.nfts_by_owner[owner][k];
            m.nfts.contains_key(id) && m.nfts[id].owner_id == owner
        }
}

/// A fresh registry is consistent.
pub proof fn lemma_empty_consistent()
    ensures
        consistent(empty_registry()),
{
}

/// A mint preserves cross-table consistency, provided the derived id does
/// not already stand in another owner's list. For ids this library derived,
/// the serialization lemmas rule such a clash out short of a digest
/// collision.
pub proof fn lemma_mint_preserves_consistency(m: RegistryModel, owner: Seq<u8>, name: Seq<u8>, image: Seq<u8>)
    requires
        consistent(m),
        forall|other: Seq<u8>, j: int|
            other != owner && m.nfts_by_owner.contains_key(other)
                && 0 <= j < m.nfts_by_owner[other].len()
                ==> #[trigger] m.nfts_by_owner[other][j] != minted_nft(m, owner, name, image).id,
    ensures
        consistent(mint_post(m, owner, name, image)),
{
    let nft = minted_nft(m, owner, name, image);
    let m2 = mint_post(m, owner, name, image);
    assert forall|o2: Seq<u8>, k: int|
        m2.nfts_by_owner.contains_key(o2) && 0 <= k < m2.nfts_by_owner[o2].len() implies {
            let id = #[trigger] m2.nfts_by_owner[o2][k];
            m2.nfts.contains_key(id) && m2.nfts[id].owner_id == o2
        } by {
        let id = m2.nfts_by_owner[o2][k];
        if o2 == owner {
            let before = owned_ids_of(m, owner);
            if k < before.len() {
                assert(id == before[k]);
                assert(m.nfts.contains_key(id) && m.nfts[id].owner_id == owner);
            } else {
                assert(id == nft.id);
            }
        } else {
            assert(m2.nfts_by_owner[o2] == m.nfts_by_owner[o2]);
            assert(m.nfts.contains_key(id) && m.nfts[id].owner_id == o2);
            assert(id != nft.id);
        }
    }
}

} // verus!
