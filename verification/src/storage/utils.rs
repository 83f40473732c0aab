//! The key of a storage address, the check of an address against the
//! metadata, and the decoding of what is stored.
//!
//! A key is the root of the entry, which is the hash of the pallet's name
//! followed by the hash of the entry's name, 16 bytes each, and behind it
//! whatever the address adds for a key in a map.

use crate::error::{outcome, Error, ErrorView, MetadataError, MetadataErrorView};
use crate::hashing::{twox_128, twox_128_digest};
use crate::metadata::{Metadata, PalletMetadata, StorageEntryMetadata};
use crate::storage::address::{entry_details, StorageAddress};
use crate::text::{extend_bytes, hash_eq};
use vstd::prelude::*;
use vstd::slice::slice_subrange;
use vstd::string::*;
use vstd::utf8::encode_utf8;

verus! {

/// The 16-byte hash of a name: the 128-bit XX hash of its UTF-8 bytes.
pub open spec fn hash16(name: Seq<char>) -> Seq<u8> {
    twox_128_digest(encode_utf8(name))@
}

/// The root of a storage entry: the hash of the pallet's name, then the hash
/// of the entry's name.
pub open spec fn root_bytes(pallet_name: Seq<char>, entry_name: Seq<char>) -> Seq<u8> {
    hash16(pallet_name) + hash16(entry_name)
}

/// The whole key of an address: its root, then what the address adds for
/// its map key, or the reason why the address does not fit the metadata.
pub open spec fn address_bytes<Address: StorageAddress>(address: Address, metadata: Metadata) -> Result<
    Seq<u8>,
    ErrorView,
> {
    match address.entry_bytes(metadata) {
        Ok(suffix) => Ok(root_bytes(address.spec_pallet_name(), address.spec_entry_name()) + suffix),
        Err(e) => Err(e),
    }
}

/// Whether `hash` is the hash that the pallet has for the storage entry of
/// this name. An entry that the pallet does not have is as incompatible as
/// one with another hash.
pub open spec fn storage_validation(pallet: PalletMetadata, storage_name: Seq<char>, hash: [u8; 32]) -> Result<
    (),
    ErrorView,
> {
    match pallet.spec_storage_hash(storage_name) {
        Some(expected) if expected@ == hash@ => Ok(()),
        _ => Err(ErrorView::Metadata(MetadataErrorView::IncompatibleCodegen)),
    }
}

/// What the check of an address against a pallet gives: an address without
/// an expected hash passes, any other is held against the pallet's hash for
/// its entry.
pub open spec fn address_validation<Address: StorageAddress>(address: Address, pallet: PalletMetadata) -> Result<
    (),
    ErrorView,
> {
    match address.spec_validation_hash() {
        Some(hash) => storage_validation(pallet, address.spec_entry_name(), hash),
        None => Ok(()),
    }
}

/// Appends the root of the address to `out`: the hash of the pallet's name,
/// then the hash of the entry's name.
pub fn write_storage_address_root_bytes<Address: StorageAddress>(addr: &Address, out: &mut Vec<u8>)
    ensures
        final(out)@ == old(out)@ + root_bytes(addr.spec_pallet_name(), addr.spec_entry_name()),
{
    let pallet_hash = twox_128(addr.pallet_name().as_bytes());
    extend_bytes(out, pallet_hash.as_slice());
    let entry_hash = twox_128(addr.entry_name().as_bytes());
    extend_bytes(out, entry_hash.as_slice());
}

/// The whole key of the address: its root, then the bytes for a lookup in a
/// storage map at that place.
pub fn storage_address_bytes<Address: StorageAddress>(addr: &Address, metadata: &Metadata) -> (key: Result<
    Vec<u8>,
    Error,
>)
    ensures
        outcome(key) == address_bytes(*addr, *metadata),
{
    let mut bytes: Vec<u8> = Vec::new();
    write_storage_address_root_bytes(addr, &mut bytes);
    match addr.append_entry_bytes(metadata, &mut bytes) {
        Ok(()) => Ok(bytes),
        Err(error) => Err(error),
    }
}

/// The root of the address, 32 bytes.
pub fn storage_address_root_bytes<Address: StorageAddress>(addr: &Address) -> (root: Vec<u8>)
    ensures
        root@ == root_bytes(addr.spec_pallet_name(), addr.spec_entry_name()),
        root@.len() == 32,
{
    let mut bytes: Vec<u8> = Vec::new();
    write_storage_address_root_bytes(addr, &mut bytes);
    bytes
}

/// The pallet and the storage entry that the names stand for.
pub fn lookup_entry_details<'a>(pallet_name: &str, entry_name: &str, metadata: &'a Metadata) -> (found: Result<
    (&'a PalletMetadata, &'a StorageEntryMetadata),
    Error,
>)
    ensures
        match entry_details(*metadata, pallet_name@, entry_name@) {
            Ok((pallet, entry)) => found == Ok::<_, Error>((&pallet, &entry)),
            Err(e) => found matches Err(error) && error@ == ErrorView::Metadata(e),
        },
{
    let pallet = match metadata.pallet_by_name(pallet_name) {
        Some(pallet) => pallet,
        None => {
            return Err(Error::Metadata(MetadataError::PalletNameNotFound(pallet_name.to_owned())));
        },
    };
    let storage = match pallet.storage() {
        Some(storage) => storage,
        None => {
            return Err(Error::Metadata(MetadataError::StorageNotFoundInPallet(pallet_name.to_owned())));
        },
    };
    let entry = match storage.entry_by_name(entry_name) {
        Some(entry) => entry,
        None => {
            return Err(Error::Metadata(MetadataError::StorageEntryNotFound(entry_name.to_owned())));
        },
    };
    Ok((pallet, entry))
}

/// Checks the address against the pallet that it names: if the address
/// carries an expected hash, the pallet must have that hash for the entry.
pub fn validate_storage_address<Address: StorageAddress>(address: &Address, pallet: &PalletMetadata) -> (checked:
    Result<(), Error>)
    ensures
        outcome(checked) == address_validation(*address, *pallet),
{
    match address.validation_hash() {
        Some(hash) => validate_storage(pallet, address.entry_name(), hash),
        None => Ok(()),
    }
}

/// Checks that the pallet has `hash` for the storage entry of this name.
pub fn validate_storage(pallet: &PalletMetadata, storage_name: &str, hash: [u8; 32]) -> (checked: Result<
    (),
    Error,
>)
    ensures
        outcome(checked) == storage_validation(*pallet, storage_name@, hash),
{
    let expected_hash = match pallet.storage_hash(storage_name) {
        Some(expected_hash) => expected_hash,
        None => {
            return Err(Error::Metadata(MetadataError::IncompatibleCodegen));
        },
    };
    if !hash_eq(&expected_hash, &hash) {
        return Err(Error::Metadata(MetadataError::IncompatibleCodegen));
    }
    Ok(())
}

/// Decodes a stored value: hands `decode` the bytes, the id of the type
/// that the entry declares for its value, and the metadata, and moves
/// `bytes` past what `decode` says it has read.
///
/// `decode` returns the value or its diagnostic, and the number of bytes it
/// has read; a number beyond the end counts as the end. A diagnostic comes
/// back as a decode error. Bytes that are left over are no error.
pub fn decode_storage_with_metadata<T, D>(
    bytes: &mut &[u8],
    metadata: &Metadata,
    storage_metadata: &StorageEntryMetadata,
    decode: D,
) -> (decoded: Result<T, Error>) where D: FnOnce(&[u8], u32, &Metadata) -> (Result<T, String>, usize)
    requires
        call_requires(decode, (*old(bytes), storage_metadata.entry_type.spec_value_ty(), metadata)),
    ensures
        exists|answer: Result<T, String>, read: usize|
            {
                &&& #[trigger] call_ensures(
                    decode,
                    (*old(bytes), storage_metadata.entry_type.spec_value_ty(), metadata),
                    (answer, read),
                )
                &&& final(bytes)@ == old(bytes)@.skip(
                    if read <= old(bytes)@.len() {
                        read as int
                    } else {
                        old(bytes)@.len() as int
                    },
                )
                &&& match answer {
                    Ok(value) => decoded == Ok::<T, Error>(value),
                    Err(diagnostic) => decoded matches Err(error) && error@ == ErrorView::Decode(
                        diagnostic@,
                    ),
                }
            },
{
    let input: &[u8] = *bytes;
    let return_ty = storage_metadata.entry_type().value_ty();
    let (answer, read) = decode(input, return_ty, metadata);
    let taken = if read <= input.len() {
        read
    } else {
        input.len()
    };
    *bytes = slice_subrange(input, taken, input.len());
    match answer {
        Ok(value) => Ok(value),
        Err(diagnostic) => Err(Error::Decode(diagnostic)),
    }
}

/// The root of an entry is fixed by the two names: equal names give equal
/// roots, whatever else the addresses hold and whenever they are asked. It
/// is the hash of the pallet's name followed by the hash of the entry's
/// name, in that order, 32 bytes in all.
pub proof fn lemma_root_bytes_stable<A: StorageAddress, B: StorageAddress>(a: A, b: B)
    requires
        a.spec_pallet_name() == b.spec_pallet_name(),
        a.spec_entry_name() == b.spec_entry_name(),
    ensures
        root_bytes(a.spec_pallet_name(), a.spec_entry_name()) == root_bytes(b.spec_pallet_name(), b.spec_entry_name()),
        root_bytes(a.spec_pallet_name(), a.spec_entry_name()) == hash16(a.spec_pallet_name()) + hash16(a.spec_entry_name()),
        root_bytes(a.spec_pallet_name(), a.spec_entry_name()).len() == 32,
        root_bytes(a.spec_pallet_name(), a.spec_entry_name()).subrange(0, 16) == hash16(a.spec_pallet_name()),
        root_bytes(a.spec_pallet_name(), a.spec_entry_name()).subrange(16, 32) == hash16(a.spec_entry_name()),
{
}

/// The key of an address begins with the root of its entry, whatever the
/// address adds for its map key.
pub proof fn lemma_key_begins_with_root<Address: StorageAddress>(address: Address, metadata: Metadata)
    requires
        address_bytes(address, metadata) is Ok,
    ensures
        address_bytes(address, metadata)->Ok_0.len() >= 32,
        address_bytes(address, metadata)->Ok_0.subrange(0, 32) == root_bytes(
            address.spec_pallet_name(),
            address.spec_entry_name(),
        ),
{
}

/// Checking is idempotent: the check reads the address and the pallet and
/// changes neither, so whatever two checks of the same address against the
/// same pallet return, they return the same.
pub proof fn lemma_validation_is_idempotent<Address: StorageAddress>(
    address: Address,
    pallet: PalletMetadata,
    first: Result<(), Error>,
    second: Result<(), Error>,
)
    requires
        outcome(first) == address_validation(address, pallet),
        outcome(second) == address_validation(address, pallet),
    ensures
        outcome(first) == outcome(second),
        first is Ok <==> second is Ok,
{
}

/// An address without an expected hash passes the check against any pallet.
pub proof fn lemma_unhashed_address_is_valid<Address: StorageAddress>(address: Address, pallet: PalletMetadata)
    requires
        address.spec_validation_hash() is None,
    ensures
        address_validation(address, pallet) == Ok::<(), ErrorView>(()),
{
}

/// An address whose expected hash differs from the hash that the pallet has
/// for its entry fails the check as incompatible, and so does one whose
/// entry the pallet does not have.
pub proof fn lemma_mismatch_is_incompatible<Address: StorageAddress>(address: Address, pallet: PalletMetadata)
    requires
        address.spec_validation_hash() matches Some(hash) && match pallet.spec_storage_hash(
            address.spec_entry_name(),
        ) {
            Some(expected) => expected@ != hash@,
            None => true,
        },
    ensures
        address_validation(address, pallet) == Err::<(), ErrorView>(
            ErrorView::Metadata(MetadataErrorView::IncompatibleCodegen),
        ),
{
}

} // verus!
