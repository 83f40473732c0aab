//! The address of a storage entry.
//!
//! [`StorageAddress`] is what the key builder and the validator ask of an
//! address: the names of its pallet and entry, the hash that the caller
//! expects the entry's declaration to have, and the bytes that it adds to
//! the root for its map key. [`Address`] is the address that carries the
//! encoded parts of its map key and hashes each as the entry declares.

use crate::error::{Error, ErrorView, MetadataErrorView, StorageAddressError};
use crate::hashing::{
    blake2_128, blake2_128_digest, blake2_256, blake2_256_digest, twox_128, twox_128_digest, twox_256,
    twox_256_digest, twox_64, twox_64_digest,
};
use crate::metadata::{Metadata, PalletMetadata, StorageEntryMetadata, StorageEntryType, StorageHasher};
use crate::storage::utils::lookup_entry_details;
use crate::text::extend_bytes;
use vstd::prelude::*;
use vstd::string::*;

verus! {

/// What a hasher makes of one key part.
pub open spec fn hashed_key(hasher: StorageHasher, key: Seq<u8>) -> Seq<u8> {
    match hasher {
        StorageHasher::Identity => key,
        StorageHasher::Blake2_128 => blake2_128_digest(key)@,
        StorageHasher::Blake2_128Concat => blake2_128_digest(key)@ + key,
        StorageHasher::Blake2_256 => blake2_256_digest(key)@,
        StorageHasher::Twox128 => twox_128_digest(key)@,
        StorageHasher::Twox256 => twox_256_digest(key)@,
        StorageHasher::Twox64Concat => twox_64_digest(key)@ + key,
    }
}

/// The first `count` key parts, each hashed by the hasher at its position,
/// one after the other.
pub open spec fn hashed_keys(hashers: Seq<StorageHasher>, keys: Seq<Seq<u8>>, count: nat) -> Seq<u8>
    decreases count,
{
    if count == 0 {
        Seq::empty()
    } else {
        hashed_keys(hashers, keys, (count - 1) as nat) + hashed_key(hashers[count - 1], keys[count - 1])
    }
}

/// The pallet and the storage entry that two names stand for in the
/// metadata, or why there is none: the pallet is looked up first, then its
/// storage section, then the entry.
pub open spec fn entry_details(metadata: Metadata, pallet_name: Seq<char>, entry_name: Seq<char>) -> Result<
    (PalletMetadata, StorageEntryMetadata),
    MetadataErrorView,
> {
    match metadata.find_pallet(pallet_name) {
        None => Err(MetadataErrorView::PalletNameNotFound(pallet_name)),
        Some(pallet) => match pallet.storage {
            None => Err(MetadataErrorView::StorageNotFoundInPallet(pallet_name)),
            Some(storage) => match storage.find_entry(entry_name) {
                None => Err(MetadataErrorView::StorageEntryNotFound(entry_name)),
                Some(entry) => Ok((pallet, entry)),
            },
        },
    }
}

/// The address of a storage entry: it names a pallet and an entry, may
/// carry the hash that it expects the entry's declaration to have, and knows
/// what to add to the root of the entry for the key it stands for.
pub trait StorageAddress {
    /// The name of the pallet.
    spec fn spec_pallet_name(&self) -> Seq<char>;

    /// The name of the entry in the pallet's storage.
    spec fn spec_entry_name(&self) -> Seq<char>;

    /// The hash that the entry's declaration is expected to have, or `None`
    /// to skip the check.
    spec fn spec_validation_hash(&self) -> Option<[u8; 32]>;

    /// What follows the root in the key of this address, or why the address
    /// does not fit the metadata.
    spec fn entry_bytes(&self, metadata: Metadata) -> Result<Seq<u8>, ErrorView>;

    /// The name of the pallet.
    fn pallet_name(&self) -> (name: &str)
        ensures
            name@ == self.spec_pallet_name(),
    ;

    /// The name of the entry.
    fn entry_name(&self) -> (name: &str)
        ensures
            name@ == self.spec_entry_name(),
    ;

    /// Appends to `bytes` what follows the root in the key of this address.
    fn append_entry_bytes(&self, metadata: &Metadata, bytes: &mut Vec<u8>) -> (done: Result<(), Error>)
        ensures
            match self.entry_bytes(*metadata) {
                Ok(suffix) => done is Ok && final(bytes)@ == old(bytes)@ + suffix,
                Err(e) => done matches Err(error) && error@ == e,
            },
    ;

    /// The hash that the entry's declaration is expected to have, if any.
    fn validation_hash(&self) -> (hash: Option<[u8; 32]>)
        ensures
            hash == self.spec_validation_hash(),
    ;
}

/// Where a storage entry is: the pallet and the entry by name, the parts of
/// the key if the entry is a map, and the hash of the entry's declaration
/// that the caller was compiled against, if the caller wants it checked.
#[derive(Debug, PartialEq, Eq)]
pub struct Address {
    /// The name of the pallet.
    pub pallet_name: String,
    /// The name of the entry in the pallet's storage.
    pub entry_name: String,
    /// The encoded parts of the map key, one for each hasher of the entry;
    /// none for a plain entry.
    pub keys: Vec<Vec<u8>>,
    /// The hash that the entry's declaration is expected to have, or `None`
    /// to skip the check.
    pub validation_hash: Option<[u8; 32]>,
}

impl Address {
    /// The parts of the map key.
    pub open spec fn key_parts(&self) -> Seq<Seq<u8>> {
        self.keys.deep_view()
    }

    /// An address with these parts.
    pub fn new(pallet_name: String, entry_name: String, keys: Vec<Vec<u8>>, validation_hash: Option<[u8; 32]>) -> (address:
        Address)
        ensures
            address.pallet_name == pallet_name,
            address.entry_name == entry_name,
            address.keys == keys,
            address.validation_hash == validation_hash,
    {
        Address { pallet_name, entry_name, keys, validation_hash }
    }

    /// The same address without an expected hash, so that it is used
    /// unchecked.
    pub fn unvalidated(self) -> (address: Address)
        ensures
            address.pallet_name == self.pallet_name,
            address.entry_name == self.entry_name,
            address.keys == self.keys,
            address.validation_hash is None,
    {
        Address { pallet_name: self.pallet_name, entry_name: self.entry_name, keys: self.keys, validation_hash: None }
    }
}

impl StorageAddress for Address {
    open spec fn spec_pallet_name(&self) -> Seq<char> {
        self.pallet_name@
    }

    open spec fn spec_entry_name(&self) -> Seq<char> {
        self.entry_name@
    }

    open spec fn spec_validation_hash(&self) -> Option<[u8; 32]> {
        self.validation_hash
    }

    /// The hashed key parts, if the metadata has the entry and the entry
    /// takes as many key parts as the address carries.
    open spec fn entry_bytes(&self, metadata: Metadata) -> Result<Seq<u8>, ErrorView> {
        match entry_details(metadata, self.pallet_name@, self.entry_name@) {
            Err(e) => Err(ErrorView::Metadata(e)),
            Ok((_, entry)) => {
                let hashers = entry.entry_type.spec_hashers();
                if hashers.len() != self.keys@.len() {
                    Err(
                        ErrorView::Storage(
                            StorageAddressError::WrongNumberOfKeys {
                                actual: self.keys@.len() as usize,
                                expected: hashers.len() as usize,
                            },
                        ),
                    )
                } else {
                    Ok(hashed_keys(hashers, self.key_parts(), hashers.len()))
                }
            },
        }
    }

    fn pallet_name(&self) -> (name: &str) {
        self.pallet_name.as_str()
    }

    fn entry_name(&self) -> (name: &str) {
        self.entry_name.as_str()
    }

    fn validation_hash(&self) -> (hash: Option<[u8; 32]>) {
        self.validation_hash
    }

    /// On an error `bytes` is left as it was.
    fn append_entry_bytes(&self, metadata: &Metadata, bytes: &mut Vec<u8>) -> (done: Result<(), Error>)
        ensures
            done is Err ==> final(bytes)@ == old(bytes)@,
    {
        let entry = match lookup_entry_details(self.pallet_name.as_str(), self.entry_name.as_str(), metadata) {
            Ok((_, entry)) => entry,
            Err(error) => {
                return Err(error);
            },
        };
        match &entry.entry_type {
            StorageEntryType::Plain(_) => {
                if self.keys.len() != 0 {
                    return Err(
                        Error::Storage(
                            StorageAddressError::WrongNumberOfKeys { actual: self.keys.len(), expected: 0 },
                        ),
                    );
                }
                Ok(())
            },
            StorageEntryType::Mapping { hashers, .. } => {
                if self.keys.len() != hashers.len() {
                    return Err(
                        Error::Storage(
                            StorageAddressError::WrongNumberOfKeys {
                                actual: self.keys.len(),
                                expected: hashers.len(),
                            },
                        ),
                    );
                }
                let mut i: usize = 0;
                while i < hashers.len()
                    invariant
                        i <= hashers@.len(),
                        hashers@.len() == self.keys@.len(),
                        bytes@ == old(bytes)@ + hashed_keys(hashers@, self.key_parts(), i as nat),
                    decreases hashers@.len() - i,
                {
                    assert(self.key_parts()[i as int] == self.keys@[i as int]@);
                    hash_key(hashers[i], self.keys[i].as_slice(), bytes);
                    i += 1;
                }
                Ok(())
            },
        }
    }
}

/// Appends what `hasher` makes of `key`.
pub fn hash_key(hasher: StorageHasher, key: &[u8], bytes: &mut Vec<u8>)
    ensures
        final(bytes)@ == old(bytes)@ + hashed_key(hasher, key@),
{
    match hasher {
        StorageHasher::Identity => {
            extend_bytes(bytes, key);
        },
        StorageHasher::Blake2_128 => {
            let digest = blake2_128(key);
            extend_bytes(bytes, digest.as_slice());
        },
        StorageHasher::Blake2_128Concat => {
            let digest = blake2_128(key);
            extend_bytes(bytes, digest.as_slice());
            extend_bytes(bytes, key);
        },
        StorageHasher::Blake2_256 => {
            let digest = blake2_256(key);
            extend_bytes(bytes, digest.as_slice());
        },
        StorageHasher::Twox128 => {
            let digest = twox_128(key);
            extend_bytes(bytes, digest.as_slice());
        },
        StorageHasher::Twox256 => {
            let digest = twox_256(key);
            extend_bytes(bytes, digest.as_slice());
        },
        StorageHasher::Twox64Concat => {
            let digest = twox_64(key);
            extend_bytes(bytes, digest.as_slice());
            extend_bytes(bytes, key);
        },
    }
}

} // verus!
