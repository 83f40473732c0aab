//! The runtime metadata, as far as storage access reads it: the pallets by
//! name, the storage entries of each, and for each entry how its keys are
//! hashed, the type of its value and the hash of its declaration.
//!
//! A name stands for one thing: no two pallets share a name and no two
//! storage entries of a pallet do ([`well_formed`]). [`Metadata::new`]
//! refuses anything else, so a lookup by name finds the only item of that
//! name.

use crate::text::str_eq;
use vstd::prelude::*;
use vstd::string::*;

verus! {

/// The position of the first occurrence of `name` among `names`.
pub open spec fn position(names: Seq<Seq<char>>, name: Seq<char>) -> Option<int>
    decreases names.len(),
{
    if names.len() == 0 {
        None
    } else if names.last() == name && position(names.drop_last(), name) is None {
        Some(names.len() - 1)
    } else {
        position(names.drop_last(), name)
    }
}

/// Whether no name occurs twice.
pub open spec fn distinct(names: Seq<Seq<char>>) -> bool {
    forall|i: int, j: int| 0 <= i < j < names.len() ==> names[i] != names[j]
}

/// [`position`] is `Some(i)` exactly where `i` is the least index that holds
/// `name`, and `None` exactly where no index holds it.
pub proof fn lemma_position(names: Seq<Seq<char>>, name: Seq<char>)
    ensures
        match position(names, name) {
            Some(i) => 0 <= i < names.len() && names[i] == name && forall|j: int|
                0 <= j < i ==> names[j] != name,
            None => forall|j: int| 0 <= j < names.len() ==> names[j] != name,
        },
    decreases names.len(),
{
    if names.len() > 0 {
        let init = names.drop_last();
        lemma_position(init, name);
        assert forall|j: int| 0 <= j < init.len() implies init[j] == names[j] by {}
    }
}

/// A prefix that does not hold `name` does not change where it is found:
/// once `names[i]` is `name` and nothing before it is, `i` is its position.
pub proof fn lemma_position_found(names: Seq<Seq<char>>, name: Seq<char>, i: int)
    requires
        0 <= i < names.len(),
        names[i] == name,
        forall|j: int| 0 <= j < i ==> names[j] != name,
    ensures
        position(names, name) == Some(i),
{
    lemma_position(names, name);
}

/// How a storage map hashes one of its keys.
#[derive(Debug, Clone, Copy, PartialEq, Eq, Structural)]
pub enum StorageHasher {
    /// 128-bit Blake2 hash.
    Blake2_128,
    /// 256-bit Blake2 hash.
    Blake2_256,
    /// 128-bit Blake2 hash, followed by the key itself.
    Blake2_128Concat,
    /// 128-bit XX hash.
    Twox128,
    /// 256-bit XX hash.
    Twox256,
    /// 64-bit XX hash, followed by the key itself.
    Twox64Concat,
    /// The key itself.
    Identity,
}

/// The shape of a storage entry.
#[derive(Debug, PartialEq, Eq)]
pub enum StorageEntryType {
    /// A single value, of the type with this id.
    Plain(u32),
    /// A map from keys to values.
    Mapping {
        /// One hasher for each part of the key.
        hashers: Vec<StorageHasher>,
        /// The id of the key's type.
        key_ty: u32,
        /// The id of the value's type.
        value_ty: u32,
    },
}

impl StorageEntryType {
    /// The id of the type of the entry's value.
    pub open spec fn spec_value_ty(&self) -> u32 {
        match self {
            StorageEntryType::Plain(value_ty) => *value_ty,
            StorageEntryType::Mapping { value_ty, .. } => *value_ty,
        }
    }

    /// The hashers of the entry's key parts, in order; none for a plain
    /// entry.
    pub open spec fn spec_hashers(&self) -> Seq<StorageHasher> {
        match self {
            StorageEntryType::Plain(_) => Seq::empty(),
            StorageEntryType::Mapping { hashers, .. } => hashers@,
        }
    }

    /// The id of the type of the entry's value.
    pub fn value_ty(&self) -> (id: u32)
        ensures
            id == self.spec_value_ty(),
    {
        match self {
            StorageEntryType::Plain(value_ty) => *value_ty,
            StorageEntryType::Mapping { value_ty, .. } => *value_ty,
        }
    }

    /// The id of the type of the entry's key, if it is a map.
    pub fn key_ty(&self) -> (id: Option<u32>)
        ensures
            id == match self {
                StorageEntryType::Plain(_) => None::<u32>,
                StorageEntryType::Mapping { key_ty, .. } => Some(*key_ty),
            },
    {
        match self {
            StorageEntryType::Plain(_) => None,
            StorageEntryType::Mapping { key_ty, .. } => Some(*key_ty),
        }
    }
}

/// One storage entry of a pallet.
#[derive(Debug, PartialEq, Eq)]
pub struct StorageEntryMetadata {
    /// The entry's name.
    pub name: String,
    /// The entry's shape.
    pub entry_type: StorageEntryType,
    /// The hash of the entry's declaration, which a caller's compiled
    /// expectation is held against.
    pub hash: [u8; 32],
}

impl StorageEntryMetadata {
    /// The entry's name.
    pub fn name(&self) -> (name: &str)
        ensures
            name@ == self.name@,
    {
        self.name.as_str()
    }

    /// The entry's shape.
    pub fn entry_type(&self) -> (entry_type: &StorageEntryType)
        ensures
            *entry_type == self.entry_type,
    {
        &self.entry_type
    }
}

/// The storage section of a pallet.
#[derive(Debug, PartialEq, Eq)]
pub struct StorageMetadata {
    /// The prefix that the pallet's entries share.
    pub prefix: String,
    /// The entries, in the order of the metadata.
    pub entries: Vec<StorageEntryMetadata>,
}

impl StorageMetadata {
    /// The names of the entries, in order.
    pub open spec fn entry_names(&self) -> Seq<Seq<char>> {
        Seq::new(self.entries@.len(), |i: int| self.entries@[i].name@)
    }

    /// The first entry of this name.
    pub open spec fn find_entry(&self, name: Seq<char>) -> Option<StorageEntryMetadata> {
        match position(self.entry_names(), name) {
            Some(i) => Some(self.entries@[i]),
            None => None,
        }
    }

    /// The entries, in the order of the metadata.
    pub fn entries(&self) -> (entries: &[StorageEntryMetadata])
        ensures
            entries@ == self.entries@,
    {
        self.entries.as_slice()
    }

    /// The entry of this name, if there is one.
    pub fn entry_by_name(&self, name: &str) -> (found: Option<&StorageEntryMetadata>)
        ensures
            match self.find_entry(name@) {
                Some(entry) => found == Some(&entry),
                None => found is None,
            },
    {
        let mut i: usize = 0;
        while i < self.entries.len()
            invariant
                i <= self.entries@.len(),
                forall|j: int| 0 <= j < i ==> self.entry_names()[j] != name@,
            decreases self.entries@.len() - i,
        {
            if str_eq(self.entries[i].name.as_str(), name) {
                proof {
                    lemma_position_found(self.entry_names(), name@, i as int);
                }
                return Some(&self.entries[i]);
            }
            i += 1;
        }
        proof {
            lemma_position(self.entry_names(), name@);
        }
        None
    }
}

/// One pallet of the runtime.
#[derive(Debug, PartialEq, Eq)]
pub struct PalletMetadata {
    /// The pallet's name.
    pub name: String,
    /// The pallet's index in the runtime.
    pub index: u8,
    /// The pallet's storage section, if it has one.
    pub storage: Option<StorageMetadata>,
}

impl PalletMetadata {
    /// The first storage entry of this name, if the pallet has a storage
    /// section that holds one.
    pub open spec fn find_entry(&self, name: Seq<char>) -> Option<StorageEntryMetadata> {
        match self.storage {
            Some(storage) => storage.find_entry(name),
            None => None,
        }
    }

    /// The hash of the storage entry of this name, if there is such an entry.
    pub open spec fn spec_storage_hash(&self, entry_name: Seq<char>) -> Option<[u8; 32]> {
        match self.find_entry(entry_name) {
            Some(entry) => Some(entry.hash),
            None => None,
        }
    }

    /// The pallet's name.
    pub fn name(&self) -> (name: &str)
        ensures
            name@ == self.name@,
    {
        self.name.as_str()
    }

    /// The pallet's storage section, if it has one.
    pub fn storage(&self) -> (storage: Option<&StorageMetadata>)
        ensures
            match self.storage {
                Some(section) => storage == Some(&section),
                None => storage is None,
            },
    {
        self.storage.as_ref()
    }

    /// The hash of the storage entry of this name, or `None` if the pallet
    /// has no such entry.
    pub fn storage_hash(&self, entry_name: &str) -> (hash: Option<[u8; 32]>)
        ensures
            hash == self.spec_storage_hash(entry_name@),
    {
        match &self.storage {
            None => None,
            Some(storage) => match storage.entry_by_name(entry_name) {
                None => None,
                Some(entry) => Some(entry.hash),
            },
        }
    }
}

/// Whether no two of the entries share a name.
pub fn entries_distinct(entries: &[StorageEntryMetadata]) -> (unique: bool)
    ensures
        unique == distinct(Seq::new(entries@.len(), |i: int| entries@[i].name@)),
{
    let ghost names = Seq::new(entries@.len(), |i: int| entries@[i].name@);
    let mut i: usize = 0;
    while i < entries.len()
        invariant
            i <= entries@.len(),
            names == Seq::new(entries@.len(), |i: int| entries@[i].name@),
            forall|a: int, b: int| 0 <= a < b < i ==> names[a] != names[b],
        decreases entries@.len() - i,
    {
        let mut j: usize = 0;
        while j < i
            invariant
                j <= i < entries@.len(),
                names == Seq::new(entries@.len(), |i: int| entries@[i].name@),
                forall|a: int| 0 <= a < j ==> names[a] != names[i as int],
            decreases i - j,
        {
            if str_eq(entries[j].name.as_str(), entries[i].name.as_str()) {
                assert(names[j as int] == names[i as int]);
                return false;
            }
            j += 1;
        }
        i += 1;
    }
    true
}

/// Whether no two of the pallets share a name, and in none of them two
/// storage entries do.
pub fn pallets_well_formed(pallets: &[PalletMetadata]) -> (unique: bool)
    ensures
        unique == well_formed(pallets@),
{
    let ghost names = pallet_names(pallets@);
    let mut i: usize = 0;
    while i < pallets.len()
        invariant
            i <= pallets@.len(),
            names == pallet_names(pallets@),
            forall|a: int, b: int| 0 <= a < b < i ==> names[a] != names[b],
            forall|a: int| 0 <= a < i ==> entries_well_formed(#[trigger] pallets@[a]),
        decreases pallets@.len() - i,
    {
        let unique = match &pallets[i].storage {
            Some(storage) => entries_distinct(storage.entries.as_slice()),
            None => true,
        };
        if !unique {
            return false;
        }
        let mut j: usize = 0;
        while j < i
            invariant
                j <= i < pallets@.len(),
                names == pallet_names(pallets@),
                forall|a: int| 0 <= a < j ==> names[a] != names[i as int],
            decreases i - j,
        {
            if str_eq(pallets[j].name.as_str(), pallets[i].name.as_str()) {
                assert(names[j as int] == names[i as int]);
                return false;
            }
            j += 1;
        }
        i += 1;
    }
    true
}

/// The names of the pallets, in order.
pub open spec fn pallet_names(pallets: Seq<PalletMetadata>) -> Seq<Seq<char>> {
    Seq::new(pallets.len(), |i: int| pallets[i].name@)
}

/// Whether no two storage entries of the pallet share a name.
pub open spec fn entries_well_formed(pallet: PalletMetadata) -> bool {
    match pallet.storage {
        Some(storage) => distinct(storage.entry_names()),
        None => true,
    }
}

/// Whether every name stands for one thing: no two pallets share a name, and
/// no two storage entries of a pallet do.
pub open spec fn well_formed(pallets: Seq<PalletMetadata>) -> bool {
    &&& distinct(pallet_names(pallets))
    &&& forall|i: int| 0 <= i < pallets.len() ==> entries_well_formed(#[trigger] pallets[i])
}

/// The metadata of a runtime. Every name in it stands for one thing: it is
/// made by [`Metadata::new`], which refuses pallets that share a name and
/// pallets in which two storage entries do.
#[derive(Debug, PartialEq, Eq)]
pub struct Metadata {
    pallets: Vec<PalletMetadata>,
}

impl Metadata {
    #[verifier::type_invariant]
    spec fn names_are_unique(&self) -> bool {
        well_formed(self.pallets@)
    }

    /// The pallets, in the order of the metadata.
    pub closed spec fn spec_pallets(&self) -> Seq<PalletMetadata> {
        self.pallets@
    }

    /// The first pallet of this name.
    pub open spec fn find_pallet(&self, name: Seq<char>) -> Option<PalletMetadata> {
        match position(pallet_names(self.spec_pallets()), name) {
            Some(i) => Some(self.spec_pallets()[i]),
            None => None,
        }
    }

    /// Metadata with these pallets, or `None` if two of them share a name or
    /// two storage entries of one of them do.
    pub fn new(pallets: Vec<PalletMetadata>) -> (metadata: Option<Metadata>)
        ensures
            match metadata {
                Some(made) => made.spec_pallets() == pallets@ && well_formed(pallets@),
                None => !well_formed(pallets@),
            },
    {
        if pallets_well_formed(pallets.as_slice()) {
            Some(Metadata { pallets })
        } else {
            None
        }
    }

    /// The pallets, in the order of the metadata.
    pub fn pallets(&self) -> (pallets: &[PalletMetadata])
        ensures
            pallets@ == self.spec_pallets(),
            well_formed(pallets@),
    {
        proof {
            use_type_invariant(self);
        }
        self.pallets.as_slice()
    }

    /// The pallet of this name, if there is one. It is the only one of
    /// that name.
    pub fn pallet_by_name(&self, name: &str) -> (found: Option<&PalletMetadata>)
        ensures
            match self.find_pallet(name@) {
                Some(pallet) => found == Some(&pallet),
                None => found is None,
            },
            forall|i: int|
                0 <= i < self.spec_pallets().len() && (#[trigger] self.spec_pallets()[i]).name@ == name@ ==> found
                    == Some(&self.spec_pallets()[i]),
    {
        proof {
            use_type_invariant(self);
            lemma_position(pallet_names(self.pallets@), name@);
        }
        let mut i: usize = 0;
        while i < self.pallets.len()
            invariant
                i <= self.pallets@.len(),
                forall|j: int| 0 <= j < i ==> pallet_names(self.pallets@)[j] != name@,
            decreases self.pallets@.len() - i,
        {
            if str_eq(self.pallets[i].name.as_str(), name) {
                proof {
                    use_type_invariant(self);
                    lemma_position_found(pallet_names(self.pallets@), name@, i as int);
                    assert forall|k: int|
                        0 <= k < self.pallets@.len() && (#[trigger] self.pallets@[k]).name@ == name@ implies k
                        == i by {
                        let names = pallet_names(self.pallets@);
                        assert(names[k] == name@ && names[i as int] == name@);
                        if k < i {
                            assert(names[k] != name@);
                        } else if k > i {
                            assert(names[i as int] != names[k]);
                        }
                    }
                }
                return Some(&self.pallets[i]);
            }
            i += 1;
        }
        proof {
            assert forall|k: int|
                0 <= k < self.pallets@.len() implies (#[trigger] self.pallets@[k]).name@ != name@ by {
                assert(pallet_names(self.pallets@)[k] != name@);
            }
        }
        None
    }
}

/// In metadata whose names are unique, a name finds the item that bears it:
/// the name of any pallet finds that pallet, and the name of any storage
/// entry of the pallet finds that entry.
pub proof fn lemma_names_find_their_items(metadata: Metadata, i: int, j: int)
    requires
        well_formed(metadata.spec_pallets()),
        0 <= i < metadata.spec_pallets().len(),
        metadata.spec_pallets()[i].storage matches Some(storage) && 0 <= j < storage.entries@.len(),
    ensures
        metadata.find_pallet(metadata.spec_pallets()[i].name@) == Some(metadata.spec_pallets()[i]),
        metadata.spec_pallets()[i].find_entry(metadata.spec_pallets()[i].storage->Some_0.entries@[j].name@) == Some(
            metadata.spec_pallets()[i].storage->Some_0.entries@[j],
        ),
{
    let pallets = metadata.spec_pallets();
    lemma_distinct_position(pallet_names(pallets), i);
    let storage = pallets[i].storage->Some_0;
    lemma_distinct_position(storage.entry_names(), j);
}

/// Where no two names are the same, a name finds the only item that bears
/// it: the position of the name at `i` is `i`.
pub proof fn lemma_distinct_position(names: Seq<Seq<char>>, i: int)
    requires
        distinct(names),
        0 <= i < names.len(),
    ensures
        position(names, names[i]) == Some(i),
{
    lemma_position(names, names[i]);
}

} // verus!
