//! The dual-indexed registry: one table from id to record, one from owner to
//! the ordered list of ids the owner has minted, and the mint operation that
//! keeps the two in step.

use vstd::prelude::*;
use crate::bytes::copy_bytes;
use crate::identity::generate_nft_id;
use crate::identity::nft_id_of;
use crate::kv::KvStore;
use crate::types::Nft;
use crate::types::NftModel;

verus! {

/// Mathematical image of the registry: its two tables.
#[verifier::ext_equal]
pub ghost struct RegistryModel {
    /// id -> record.
    pub nfts: Map<Seq<u8>, NftModel>,
    /// owner -> ids, in mint order.
    pub nfts_by_owner: Map<Seq<u8>, Seq<Seq<u8>>>,
}

/// The registry with nothing minted.
pub open spec fn empty_registry() -> RegistryModel {
    RegistryModel { nfts: Map::empty(), nfts_by_owner: Map::empty() }
}

/// The ids an owner holds: the owner's list, or empty where the owner has
/// never minted.
pub open spec fn owned_ids_of(m: RegistryModel, owner: Seq<u8>) -> Seq<Seq<u8>> {
    if m.nfts_by_owner.contains_key(owner) {
        m.nfts_by_owner[owner]
    } else {
        Seq::empty()
    }
}

/// The record stored under `id`, if any.
pub open spec fn record_at(m: RegistryModel, id: Seq<u8>) -> Option<NftModel> {
    if m.nfts.contains_key(id) {
        Some(m.nfts[id])
    } else {
        None
    }
}

/// The record a mint on state `m` creates: its id is derived from the owner
/// and the number of ids the owner already holds.
pub open spec fn minted_nft(m: RegistryModel, owner: Seq<u8>, name: Seq<u8>, image: Seq<u8>) -> NftModel {
    NftModel {
        id: nft_id_of(owner, owned_ids_of(m, owner).len() as u64),
        owner_id: owner,
        name: name,
        image: image,
    }
}

/// The registry state after a mint on state `m`: the new record stands under
/// its id, and the id is appended to the owner's list.
pub open spec fn mint_post(m: RegistryModel, owner: Seq<u8>, name: Seq<u8>, image: Seq<u8>) -> RegistryModel {
    let nft = minted_nft(m, owner, name, image);
    RegistryModel {
        nfts: m.nfts.insert(nft.id, nft),
        nfts_by_owner: m.nfts_by_owner.insert(owner, owned_ids_of(m, owner).push(nft.id)),
    }
}

pub struct Registry {
    records: KvStore<Nft>,
    owner_index: KvStore<Vec<Vec<u8>>>,
}

impl View for Registry {
    type V = RegistryModel;

    closed spec fn view(&self) -> RegistryModel {
        RegistryModel { nfts: self.records@, nfts_by_owner: self.owner_index@ }
    }
}

/// A fresh list holding copies of the given ids.
fn clone_ids(ids: &Vec<Vec<u8>>) -> (r: Vec<Vec<u8>>)
    ensures
        r.deep_view() == ids.deep_view(),
{
    let mut r: Vec<Vec<u8>> = Vec::new();
    let mut i: usize = 0;
    while i < ids.len()
        invariant
            i <= ids@.len(),
            r@.len() == i,
            forall|j: int| 0 <= j < i ==> r@[j]@ == ids@[j]@,
        decreases ids@.len() - i,
    {
        r.push(copy_bytes(&ids[i]));
        i += 1;
    }
    proof {
        assert(r.deep_view() =~~= ids.deep_view());
    }
    r
}

impl Registry {
    /// The empty registry.
    pub fn new() -> (r: Registry)
        ensures
            r@ == empty_registry(),
    {
        let r = Registry { records: KvStore::new(), owner_index: KvStore::new() };
        proof {
            assert(r@ =~= empty_registry());
        }
        r
    }

    /// Looks a record up by its id; `None` exactly where no record stands
    /// under the id.
    pub fn nft_by_id(&self, nft_id: &Vec<u8>) -> (r: Option<&Nft>)
        ensures
            match r {
                Some(nft) => record_at(self@, nft_id@) == Some(nft.deep_view()),
                None => record_at(self@, nft_id@) is None,
            },
    {
        self.records.get(nft_id)
    }

    /// The ids the owner holds, oldest first; empty where the owner has
    /// never minted. Never fails.
    pub fn nfts_by_owner(&self, owner_id: &Vec<u8>) -> (r: Vec<Vec<u8>>)
        ensures
            r.deep_view() == owned_ids_of(self@, owner_id@),
    {
        let got = self.owner_index.get(owner_id);
        match got {
            Some(ids) => clone_ids(ids),
            None => {
                let r: Vec<Vec<u8>> = Vec::new();
                proof {
                    assert(r.deep_view() =~~= Seq::<Seq<u8>>::empty());
                }
                r
            },
        }
    }

    /// Unconditional upsert of a record under its own id. The owner table is
    /// untouched.
    pub fn put_record(&mut self, nft: Nft)
        ensures
            final(self)@.nfts == old(self)@.nfts.insert(nft.deep_view().id, nft.deep_view()),
            final(self)@.nfts_by_owner == old(self)@.nfts_by_owner,
    {
        let key = copy_bytes(&nft.id);
        self.records.set(key, nft);
    }

    /// Appends an id to the owner's list, reading the current list (empty if
    /// absent) and writing it back extended. The record table is untouched.
    pub fn add_nft_by_owner(&mut self, owner_id: &Vec<u8>, nft_id: Vec<u8>)
        ensures
            final(self)@.nfts_by_owner == old(self)@.nfts_by_owner.insert(
                owner_id@,
                owned_ids_of(old(self)@, owner_id@).push(nft_id@),
            ),
            final(self)@.nfts == old(self)@.nfts,
    {
        let mut ids = self.nfts_by_owner(owner_id);
        let ghost before = ids.deep_view();
        ids.push(nft_id);
        proof {
            assert(ids.deep_view() =~~= before.push(nft_id@));
        }
        self.owner_index.set(copy_bytes(owner_id), ids);
    }

    /// Mints an asset: derives the next id from the owner and the owner's
    /// current count, stores the record under the id, appends the id to the
    /// owner's list, and returns the record. Infallible.
    pub fn create_nft(&mut self, owner_id: &Vec<u8>, name: &Vec<u8>, image: &Vec<u8>) -> (nft: Nft)
        ensures
            nft.deep_view() == minted_nft(old(self)@, owner_id@, name@, image@),
            final(self)@ == mint_post(old(self)@, owner_id@, name@, image@),
    {
        let nfts = self.nfts_by_owner(owner_id);
        let nft_count: u64 = nfts.len() as u64;
        let nft_id = generate_nft_id(owner_id, nft_count);
        let nft = Nft::new(copy_bytes(&nft_id), copy_bytes(owner_id), copy_bytes(name), copy_bytes(image));
        proof {
            assert(nfts@.len() == nfts.deep_view().len());
            assert(nft.deep_view() =~= minted_nft(old(self)@, owner_id@, name@, image@));
        }
        self.put_record(nft.duplicate());
        self.add_nft_by_owner(owner_id, nft_id);
        proof {
            assert(self@ =~= mint_post(old(self)@, owner_id@, name@, image@));
        }
        nft
    }
}

} // verus!
