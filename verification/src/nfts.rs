//! The NFT collection that holds the citizenship NFTs: the items, their owners, whether
//! they are locked against transfer, and their metadata.
use vstd::prelude::*;
use crate::primitives::AccountId;
use crate::storage::KeyMap;

verus! {

/// One NFT of the collection.
#[derive(Debug)]
pub struct NftItem {
    pub owner: AccountId,
    /// Marked non-transferable (`locked` attribute).
    pub locked: bool,
    pub metadata: Vec<u8>,
}

/// Errors of the collection.
#[derive(Clone, Copy, Debug, PartialEq, Eq, Structural)]
pub enum NftError {
    /// An item with this id exists already.
    AlreadyExists,
    /// No item has this id.
    UnknownItem,
    /// The metadata is longer than the collection allows.
    MetadataTooLong,
}

/// An NFT collection.
pub struct NftCollection {
    pub collection_id: u32,
    /// Longest metadata that an item may hold.
    pub string_limit: u32,
    /// The items, by item id.
    pub items: KeyMap<NftItem>,
}

impl NftCollection {
    /// An empty collection.
    pub fn new(collection_id: u32, string_limit: u32) -> (c: Self)
        ensures
            c.collection_id == collection_id,
            c.string_limit == string_limit,
            c.items@ == Map::<u64, NftItem>::empty(),
    {
        NftCollection { collection_id, string_limit, items: KeyMap::new() }
    }

    /// The owner of item `item`, if it exists.
    pub fn owner_of(&self, item: u32) -> (r: Option<AccountId>)
        ensures
            r == (if self.items@.contains_key(item as u64) {
                Some(self.items@[item as u64].owner)
            } else {
                None
            }),
    {
        match self.items.get(item as u64) {
            Some(i) => Some(i.owner),
            None => None,
        }
    }

    /// Mints item `item` to `owner`, unlocked and without metadata.
    pub fn mint(&mut self, item: u32, owner: AccountId) -> (r: Result<(), NftError>)
        ensures
            final(self).collection_id == old(self).collection_id,
            final(self).string_limit == old(self).string_limit,
            old(self).items@.contains_key(item as u64) ==> r == Err::<(), NftError>(
                NftError::AlreadyExists,
            ) && *final(self) == *old(self),
            !old(self).items@.contains_key(item as u64) ==> {
                &&& r is Ok
                &&& final(self).items@.dom() == old(self).items@.dom().insert(item as u64)
                &&& final(self).items@[item as u64].owner == owner
                &&& !final(self).items@[item as u64].locked
                &&& final(self).items@[item as u64].metadata@ == Seq::<u8>::empty()
                &&& forall|k: u64| k != item as u64 ==> #[trigger] final(self).items@[k] == old(
                    self,
                ).items@[k]
            },
    {
        if self.items.contains_key(item as u64) {
            return Err(NftError::AlreadyExists);
        }
        self.items.insert(item as u64, NftItem { owner, locked: false, metadata: Vec::new() });
        Ok(())
    }

    /// Marks item `item` as non-transferable.
    pub fn lock(&mut self, item: u32) -> (r: Result<(), NftError>)
        ensures
            final(self).collection_id == old(self).collection_id,
            final(self).string_limit == old(self).string_limit,
            final(self).items@.dom() == old(self).items@.dom(),
            !old(self).items@.contains_key(item as u64) ==> r == Err::<(), NftError>(
                NftError::UnknownItem,
            ) && *final(self) == *old(self),
            old(self).items@.contains_key(item as u64) ==> {
                &&& r is Ok
                &&& final(self).items@[item as u64].owner == old(self).items@[item as u64].owner
                &&& final(self).items@[item as u64].locked
                &&& final(self).items@[item as u64].metadata == old(
                    self,
                ).items@[item as u64].metadata
                &&& forall|k: u64| k != item as u64 ==> #[trigger] final(self).items@[k] == old(
                    self,
                ).items@[k]
            },
    {
        match self.items.remove(item as u64) {
            Some(it) => {
                self.items.insert(
                    item as u64,
                    NftItem { owner: it.owner, locked: true, metadata: it.metadata },
                );
                proof {
                    assert(self.items@.dom() =~= old(self).items@.dom());
                }
                Ok(())
            },
            None => Err(NftError::UnknownItem),
        }
    }

    /// Replaces the metadata of item `item`.
    pub fn set_metadata(&mut self, item: u32, data: Vec<u8>) -> (r: Result<(), NftError>)
        ensures
            final(self).collection_id == old(self).collection_id,
            final(self).string_limit == old(self).string_limit,
            final(self).items@.dom() == old(self).items@.dom(),
            !old(self).items@.contains_key(item as u64) ==> r == Err::<(), NftError>(
                NftError::UnknownItem,
            ) && *final(self) == *old(self),
            old(self).items@.contains_key(item as u64) && data@.len() > old(self).string_limit
                ==> r == Err::<(), NftError>(NftError::MetadataTooLong) && *final(self) == *old(
                self,
            ),
            old(self).items@.contains_key(item as u64) && data@.len() <= old(self).string_limit
                ==> {
                &&& r is Ok
                &&& final(self).items@[item as u64].owner == old(self).items@[item as u64].owner
                &&& final(self).items@[item as u64].locked == old(
                    self,
                ).items@[item as u64].locked
                &&& final(self).items@[item as u64].metadata@ == data@
                &&& forall|k: u64| k != item as u64 ==> #[trigger] final(self).items@[k] == old(
                    self,
                ).items@[k]
            },
    {
        if !self.items.contains_key(item as u64) {
            return Err(NftError::UnknownItem);
        }
        if data.len() > self.string_limit as usize {
            return Err(NftError::MetadataTooLong);
        }
        match self.items.remove(item as u64) {
            Some(it) => {
                self.items.insert(item as u64, NftItem { owner: it.owner, locked: it.locked, metadata: data });
                proof {
                    assert(self.items@.dom() =~= old(self).items@.dom());
                }
                Ok(())
            },
            None => Err(NftError::UnknownItem),
        }
    }
}

} // verus!
