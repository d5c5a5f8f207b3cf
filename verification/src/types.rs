//! The minted asset record and its mathematical image.

use vstd::prelude::*;
use crate::bytes::copy_bytes;

verus! {

/// The stored representation of a minted asset. Every field is assigned at
/// creation and never mutated by this library.
#[derive(Debug, PartialEq, Eq)]
pub struct Nft {
    /// The 32-byte identity digest, the primary key.
    pub id: Vec<u8>,
    /// The principal that minted the asset.
    pub owner_id: Vec<u8>,
    /// Opaque display label.
    pub name: Vec<u8>,
    /// Opaque image reference.
    pub image: Vec<u8>,
}

/// Mathematical image of an [`Nft`]: the same four fields as byte strings.
#[verifier::ext_equal]
pub ghost struct NftModel {
    pub id: Seq<u8>,
    pub owner_id: Seq<u8>,
    pub name: Seq<u8>,
    pub image: Seq<u8>,
}

impl DeepView for Nft {
    type V = NftModel;

    open spec fn deep_view(&self) -> NftModel {
        NftModel { id: self.id@, owner_id: self.owner_id@, name: self.name@, image: self.image@ }
    }
}

impl Nft {
    /// A record made of exactly the given fields.
    pub fn new(id: Vec<u8>, owner_id: Vec<u8>, name: Vec<u8>, image: Vec<u8>) -> (r: Self)
        ensures
            r.deep_view() == (NftModel { id: id@, owner_id: owner_id@, name: name@, image: image@ }),
    {
        Nft { id, owner_id, name, image }
    }

    /// A fresh record holding the same fields.
    pub fn duplicate(&self) -> (r: Self)
        ensures
            r.deep_view() == self.deep_view(),
    {
        Nft {
            id: copy_bytes(&self.id),
            owner_id: copy_bytes(&self.owner_id),
            name: copy_bytes(&self.name),
            image: copy_bytes(&self.image),
        }
    }
}

} // verus!
