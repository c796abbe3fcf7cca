//! What the worker knows of the parentchain's runtime: its pallets, each with an index, its
//! calls and its storage items. Call indexes and storage keys are looked up by name.
use vstd::prelude::*;
use vstd::string::StringSliceAdditionalSpecFns;
use crate::storage::{
    lemma_map_key_hashes_the_encoded_key, storage_map_key, storage_map_key_spec, StorageHasher,
};

verus! {

/// Why a lookup in the node metadata failed.
#[derive(Clone, Copy, Debug, PartialEq, Eq)]
pub enum MetadataError {
    /// No metadata has been fetched from the node yet.
    MetadataNotSet,
    /// The runtime has no pallet of that name.
    PalletNotFound,
    /// The pallet has no call of that name.
    CallNotFound,
    /// The pallet has no storage item of that name.
    StorageItemNotFound,
    /// The storage item is a plain value, not a map.
    StorageTypeError,
}

/// A dispatchable call of a pallet.
#[derive(Clone, Debug)]
pub struct CallMetadata {
    pub name: String,
    pub index: u8,
}

/// A storage item of a pallet: a map hashed by `hasher`, or a plain value (`None`).
#[derive(Clone, Debug)]
pub struct StorageEntryMetadata {
    pub name: String,
    pub hasher: Option<StorageHasher>,
}

/// A pallet of the runtime.
#[derive(Clone, Debug)]
pub struct PalletMetadata {
    pub name: String,
    pub index: u8,
    pub calls: Vec<CallMetadata>,
    pub storage: Vec<StorageEntryMetadata>,
}

/// The runtime metadata of the parentchain node, once fetched.
#[derive(Clone, Debug)]
pub struct NodeMetadata {
    pub node_metadata: Option<Vec<PalletMetadata>>,
}

/// Something that is looked up by its name.
pub trait Named {
    spec fn name_view(&self) -> Seq<char>;

    fn name(&self) -> (n: &String)
        ensures
            n@ == self.name_view(),
    ;
}

impl Named for CallMetadata {
    open spec fn name_view(&self) -> Seq<char> {
        self.name@
    }

    fn name(&self) -> (n: &String) {
        &self.name
    }
}

impl Named for StorageEntryMetadata {
    open spec fn name_view(&self) -> Seq<char> {
        self.name@
    }

    fn name(&self) -> (n: &String) {
        &self.name
    }
}

impl Named for PalletMetadata {
    open spec fn name_view(&self) -> Seq<char> {
        self.name@
    }

    fn name(&self) -> (n: &String) {
        &self.name
    }
}

/// The names of `items`, in order.
pub open spec fn names_of<T: Named>(items: Seq<T>) -> Seq<Seq<char>> {
    Seq::new(items.len(), |i: int| items[i].name_view())
}

/// The position of the first item named `name`, if any.
pub fn position_by_name<T: Named>(items: &Vec<T>, name: &str) -> (pos: Option<usize>)
    ensures
        match pos {
            Some(i) => i < items@.len() && names_of(items@).index_of_first(name@) == Some(i as int),
            None => names_of(items@).index_of_first(name@) is None,
        },
{
    let target = name.to_owned();
    let n: usize = items.len();
    let mut i: usize = 0;
    proof {
        names_of(items@).index_of_first_ensures(name@);
    }
    while i < n
        invariant
            n == items@.len(),
            i <= n,
            target@ == name@,
            forall|j: int| 0 <= j < i ==> names_of(items@)[j] != name@,
            match names_of(items@).index_of_first(name@) {
                Some(index) => {
                    &&& names_of(items@).contains(name@)
                    &&& 0 <= index < names_of(items@).len()
                    &&& names_of(items@)[index] == name@
                    &&& forall|j: int|
                        0 <= j < index < names_of(items@).len() ==> names_of(items@)[j] != name@
                },
                None => !names_of(items@).contains(name@),
            },
        decreases n - i,
    {
        if items[i].name().eq(&target) {
            assert(names_of(items@)[i as int] == name@);
            return Some(i);
        }
        i = i + 1;
    }
    proof {
        if names_of(items@).contains(name@) {
            let k = choose|k: int| 0 <= k < names_of(items@).len() && names_of(items@)[k] == name@;
            assert(names_of(items@)[k] != name@);
        }
    }
    None
}

impl NodeMetadata {
    /// The pallets, if metadata has been fetched.
    pub open spec fn pallets_view(&self) -> Option<Seq<PalletMetadata>> {
        match self.node_metadata {
            Some(p) => Some(p@),
            None => None,
        }
    }

    /// The position of the pallet named `pallet`, or why there is none.
    pub open spec fn spec_pallet_position(&self, pallet: Seq<char>) -> Result<int, MetadataError> {
        match self.pallets_view() {
            None => Err(MetadataError::MetadataNotSet),
            Some(ps) => match names_of(ps).index_of_first(pallet) {
                None => Err(MetadataError::PalletNotFound),
                Some(i) => Ok(i),
            },
        }
    }

    /// The pallet index and call index of the call `call` of the pallet `pallet`.
    pub open spec fn spec_call_indexes(&self, pallet: Seq<char>, call: Seq<char>) -> Result<
        Seq<u8>,
        MetadataError,
    > {
        match self.spec_pallet_position(pallet) {
            Err(e) => Err(e),
            Ok(i) => {
                let p = self.pallets_view().unwrap()[i];
                match names_of(p.calls@).index_of_first(call) {
                    None => Err(MetadataError::CallNotFound),
                    Some(j) => Ok(seq![p.index, p.calls@[j].index]),
                }
            },
        }
    }

    /// The key of the entry under `encoded_key` of the storage map `item` of the pallet
    /// `pallet`.
    pub open spec fn spec_storage_map_key(
        &self,
        pallet: &str,
        item: &str,
        encoded_key: Seq<u8>,
    ) -> Result<Seq<u8>, MetadataError> {
        match self.spec_pallet_position(pallet@) {
            Err(e) => Err(e),
            Ok(i) => {
                let p = self.pallets_view().unwrap()[i];
                match names_of(p.storage@).index_of_first(item@) {
                    None => Err(MetadataError::StorageItemNotFound),
                    Some(j) => match p.storage@[j].hasher {
                        None => Err(MetadataError::StorageTypeError),
                        Some(h) => Ok(
                            storage_map_key_spec(pallet.spec_bytes(), item.spec_bytes(), encoded_key, h),
                        ),
                    },
                }
            },
        }
    }

    /// The storage item named `item` of the pallet named `pallet`, when both are declared.
    pub open spec fn spec_storage_entry(&self, pallet: Seq<char>, item: Seq<char>) -> Option<
        StorageEntryMetadata,
    > {
        match self.spec_pallet_position(pallet) {
            Err(_) => None,
            Ok(i) => {
                let p = self.pallets_view().unwrap()[i];
                match names_of(p.storage@).index_of_first(item) {
                    None => None,
                    Some(j) => Some(p.storage@[j]),
                }
            },
        }
    }

    /// The key that the metadata gives for an entry of a storage map is built with exactly the
    /// hasher that the metadata declares for that map, under the pallet and item names asked
    /// for; with a `Concat` hasher it ends with the encoded map key itself. An item declared as
    /// a plain value gives no key.
    pub proof fn lemma_map_key_uses_declared_hasher(&self, pallet: &str, item: &str, encoded_key: Seq<u8>)
        ensures
            self.spec_storage_entry(pallet@, item@) matches Some(entry) ==> (entry.hasher matches Some(h)
                ==> self.spec_storage_map_key(pallet, item, encoded_key) == Ok::<Seq<u8>, MetadataError>(
                storage_map_key_spec(pallet.spec_bytes(), item.spec_bytes(), encoded_key, h),
            )),
            self.spec_storage_entry(pallet@, item@) matches Some(entry) ==> (entry.hasher
                == Some(StorageHasher::Blake2_128Concat) ==> (self.spec_storage_map_key(
                pallet,
                item,
                encoded_key,
            ) matches Ok(key) && key.subrange(key.len() - encoded_key.len(), key.len() as int)
                == encoded_key)),
            self.spec_storage_entry(pallet@, item@) matches Some(entry) ==> (entry.hasher is None
                ==> self.spec_storage_map_key(pallet, item, encoded_key) == Err::<Seq<u8>, MetadataError>(
                MetadataError::StorageTypeError,
            )),
    {
        lemma_map_key_hashes_the_encoded_key(pallet.spec_bytes(), item.spec_bytes(), encoded_key);
        if let Some(entry) = self.spec_storage_entry(pallet@, item@) {
            if let Some(h) = entry.hasher {
                let i = self.spec_pallet_position(pallet@).unwrap();
                let p = self.pallets_view().unwrap()[i];
                let j = names_of(p.storage@).index_of_first(item@).unwrap();
                assert(p.storage@[j] == entry);
                assert(self.spec_storage_map_key(pallet, item, encoded_key) == Ok::<Seq<u8>, MetadataError>(
                    storage_map_key_spec(pallet.spec_bytes(), item.spec_bytes(), encoded_key, h)));
            }
        }
    }

    /// Looks up the pallet index and the call index of a call, by the names of its pallet and
    /// of the call.
    pub fn call_indexes(&self, pallet: &str, call: &str) -> (r: Result<[u8; 2], MetadataError>)
        ensures
            match (r, self.spec_call_indexes(pallet@, call@)) {
                (Ok(ix), Ok(s)) => ix@ == s,
                (Err(e), Err(f)) => e == f,
                _ => false,
            },
    {
        match &self.node_metadata {
            None => Err(MetadataError::MetadataNotSet),
            Some(pallets) => match position_by_name(pallets, pallet) {
                None => Err(MetadataError::PalletNotFound),
                Some(i) => {
                    let p = &pallets[i];
                    match position_by_name(&p.calls, call) {
                        None => Err(MetadataError::CallNotFound),
                        Some(j) => {
                            let ix = [p.index, p.calls[j].index];
                            assert(ix@ =~= seq![p.index, p.calls@[j as int].index]);
                            Ok(ix)
                        },
                    }
                },
            },
        }
    }

    /// Builds the key of an entry of a storage map from the map's hasher in the metadata.
    pub fn storage_map_key(&self, pallet: &str, item: &str, encoded_key: &[u8]) -> (r: Result<
        Vec<u8>,
        MetadataError,
    >)
        ensures
            match (r, self.spec_storage_map_key(pallet, item, encoded_key@)) {
                (Ok(k), Ok(s)) => k@ == s,
                (Err(e), Err(f)) => e == f,
                _ => false,
            },
    {
        match &self.node_metadata {
            None => Err(MetadataError::MetadataNotSet),
            Some(pallets) => match position_by_name(pallets, pallet) {
                None => Err(MetadataError::PalletNotFound),
                Some(i) => {
                    let p = &pallets[i];
                    match position_by_name(&p.storage, item) {
                        None => Err(MetadataError::StorageItemNotFound),
                        Some(j) => match p.storage[j].hasher {
                            None => Err(MetadataError::StorageTypeError),
                            Some(h) => Ok(storage_map_key(pallet, item, encoded_key, h)),
                        },
                    }
                },
            },
        }
    }
}

} // verus!
