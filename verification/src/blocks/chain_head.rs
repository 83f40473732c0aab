//! A block that a chain-head subscription has pinned.
//!
//! Each operation on the block has two halves. The first builds the request
//! to send: the subscription, the hash of the block and what the operation
//! adds. The second takes what came back, which is the beginning of the
//! stream that the request opened, and turns it into the result. The caller
//! sends the request and waits in between.

use crate::error::{deep_outcome, outcome, ChainHeadError, ChainHeadErrorView, Error, ErrorView};
use crate::events::{EventRecord, Events};
use crate::hashing::twox_128;
use crate::hexcode::{decode_payload, payload_bytes};
use crate::metadata::Metadata;
use crate::rpc::{
    event_bytes, event_optional_bytes, first_event, head_event, optional_outcome, BlockRequest, CallRequest,
    StorageRequest, SubscriptionHead,
};
use crate::scale::{byte_strings, decode_byte_strings};
use crate::storage::address::{entry_details, StorageAddress};
use crate::storage::utils::{
    address_bytes, address_validation, decode_storage_with_metadata, lookup_entry_details, root_bytes,
    storage_address_bytes, validate_storage_address,
};
use crate::text::{copy_bytes, extend_bytes};
use vstd::prelude::*;
use vstd::string::*;

verus! {

/// The result of the body operation for a stream that began with `head`:
/// the bytes of the first event, read as a list of byte strings. Bytes that
/// the codec refuses are an internal error with the codec's diagnostic.
pub open spec fn body_outcome(head: SubscriptionHead<String>) -> Result<Seq<Seq<u8>>, ChainHeadErrorView> {
    match head_event(head, "Failed to fetch the block body"@) {
        Err(e) => Err(e),
        Ok(event) => match event_bytes(event) {
            Err(e) => Err(e),
            Ok(bytes) => match byte_strings(bytes) {
                Ok(list) => Ok(list),
                Err(diagnostic) => Err(ChainHeadErrorView::Other(ErrorView::Codec(diagnostic).text())),
            },
        },
    }
}

/// The result of the raw storage operation for a stream that began with
/// `head`: the bytes of the first event, or `None` where the key has no
/// value.
pub open spec fn storage_outcome(head: SubscriptionHead<Option<String>>) -> Result<
    Option<Seq<u8>>,
    ChainHeadErrorView,
> {
    match head_event(head, "Failed to fetch the block storage"@) {
        Err(e) => Err(e),
        Ok(event) => event_optional_bytes(event),
    }
}

/// The result of the call operation for a stream that began with `head`:
/// the bytes of the first event.
pub open spec fn call_outcome(head: SubscriptionHead<String>) -> Result<Seq<u8>, ChainHeadErrorView> {
    match head_event(head, "Failed to execute the runtime API call"@) {
        Err(e) => Err(e),
        Ok(event) => event_bytes(event),
    }
}

/// The bytes of a header from the node's answer to the header request: a
/// failure of the transport and a header that is no hexadecimal text are
/// internal errors, and a node that has no header for the block lacks the
/// resource.
pub open spec fn header_bytes(answer: Result<Option<String>, Error>) -> Result<Seq<u8>, ChainHeadErrorView> {
    match answer {
        Err(error) => Err(ChainHeadErrorView::Other(error@.text())),
        Ok(None) => Err(ChainHeadErrorView::ResourceNonExistent),
        Ok(Some(header)) => match payload_bytes(header@) {
            Ok(bytes) => Ok(bytes),
            Err(diagnostic) => Err(ChainHeadErrorView::Other(ErrorView::Other(diagnostic).text())),
        },
    }
}

/// The key under which a typed lookup asks for an address: the entry is
/// looked up, the address is checked against its pallet, and only then is
/// the key built.
pub open spec fn lookup_key<Address: StorageAddress>(address: Address, metadata: Metadata) -> Result<
    Seq<u8>,
    ErrorView,
> {
    match entry_details(metadata, address.spec_pallet_name(), address.spec_entry_name()) {
        Err(e) => Err(ErrorView::Metadata(e)),
        Ok((pallet, _)) => match address_validation(address, pallet) {
            Err(e) => Err(e),
            Ok(()) => address_bytes(address, metadata),
        },
    }
}

/// The key under which the events of a block are stored: the root of the
/// entry `Events` of the pallet `System`.
pub open spec fn events_key() -> Seq<u8> {
    root_bytes("System"@, "Events"@)
}

/// A block that a chain-head subscription has pinned. It stays pinned until
/// [`ChainHeadBlock::unpin`] gives it up.
#[derive(Debug)]
pub struct ChainHeadBlock {
    hash: [u8; 32],
    subscription_id: String,
    metadata: Metadata,
}

impl ChainHeadBlock {
    /// The hash of the block.
    pub closed spec fn spec_hash(&self) -> [u8; 32] {
        self.hash
    }

    /// The subscription that pinned the block.
    pub closed spec fn spec_subscription_id(&self) -> Seq<char> {
        self.subscription_id@
    }

    /// The metadata that the block's storage is read against.
    pub closed spec fn spec_metadata(&self) -> Metadata {
        self.metadata
    }

    /// Whether a request names this block and the subscription that pinned
    /// it.
    pub open spec fn names(&self, request: BlockRequest) -> bool {
        request.subscription_id@ == self.spec_subscription_id() && request.hash == self.spec_hash()
    }

    /// Whether a request asks for this key at this block, in the main trie.
    pub open spec fn asks_for(&self, request: StorageRequest, key: Seq<u8>) -> bool {
        &&& request.subscription_id@ == self.spec_subscription_id()
        &&& request.hash == self.spec_hash()
        &&& request.key@ == key
        &&& request.child_key is None
    }

    /// The type that the entry of an address declares for its value.
    pub open spec fn value_type<Address: StorageAddress>(&self, address: Address) -> u32 {
        match entry_details(self.spec_metadata(), address.spec_pallet_name(), address.spec_entry_name()) {
            Ok((_, entry)) => entry.entry_type.spec_value_ty(),
            Err(_) => 0,
        }
    }

    /// The block with this hash that the subscription with this id pinned.
    pub fn new(hash: [u8; 32], subscription_id: String, metadata: Metadata) -> (block: ChainHeadBlock)
        ensures
            block.spec_hash() == hash,
            block.spec_subscription_id() == subscription_id@,
            block.spec_metadata() == metadata,
    {
        ChainHeadBlock { hash, subscription_id, metadata }
    }

    /// The hash of the block.
    pub fn hash(&self) -> (hash: [u8; 32])
        ensures
            hash == self.spec_hash(),
    {
        self.hash
    }

    /// The metadata that the block's storage is read against.
    pub fn metadata(&self) -> (metadata: &Metadata)
        ensures
            *metadata == self.spec_metadata(),
    {
        &self.metadata
    }

    /// The request for the body of the block.
    pub fn body_request(&self) -> (request: BlockRequest)
        ensures
            self.names(request),
    {
        BlockRequest { subscription_id: self.subscription_id.clone(), hash: self.hash }
    }

    /// The body of the block, a list of extrinsics, from the beginning of
    /// the stream that the body request opened.
    pub fn body(&self, head: SubscriptionHead<String>) -> (body: Result<Vec<Vec<u8>>, ChainHeadError>)
        ensures
            deep_outcome(body) == body_outcome(head),
    {
        Self::fetch_body(head)
    }

    /// The request for the header of the block.
    pub fn header_request(&self) -> (request: BlockRequest)
        ensures
            self.names(request),
    {
        BlockRequest { subscription_id: self.subscription_id.clone(), hash: self.hash }
    }

    /// The header of the block, from the node's answer to the header
    /// request. `decode` reads the header from its bytes; its diagnostic
    /// comes back as an internal error that holds a codec error.
    pub fn header<H, D: FnOnce(&[u8]) -> Result<H, String>>(
        &self,
        answer: Result<Option<String>, Error>,
        decode: D,
    ) -> (header: Result<H, ChainHeadError>)
        requires
            forall|bytes: &[u8]| call_requires(decode, (bytes,)),
        ensures
            match header_bytes(answer) {
                Err(e) => header matches Err(error) && error@ == e,
                Ok(encoded) => exists|bytes: &[u8], decoded: Result<H, String>|
                    {
                        &&& bytes@ == encoded
                        &&& #[trigger] call_ensures(decode, (bytes,), decoded)
                        &&& match decoded {
                            Ok(value) => header == Ok::<H, ChainHeadError>(value),
                            Err(diagnostic) => header matches Err(error) && error@ == ChainHeadErrorView::Other(
                                ErrorView::Codec(diagnostic@).text(),
                            ),
                        }
                    },
            },
    {
        Self::fetch_header(answer, decode)
    }

    /// The request for the value stored under `key` at the block.
    pub fn storage_raw_request(&self, key: &[u8]) -> (request: StorageRequest)
        ensures
            self.asks_for(request, key@),
    {
        StorageRequest {
            subscription_id: self.subscription_id.clone(),
            hash: self.hash,
            key: copy_bytes(key),
            child_key: None,
        }
    }

    /// The bytes stored under a key at the block, or `None` where the key
    /// has no value, from the beginning of the stream that the storage
    /// request opened.
    pub fn storage_raw(&self, head: SubscriptionHead<Option<String>>) -> (stored: Result<
        Option<Vec<u8>>,
        ChainHeadError,
    >)
        ensures
            optional_outcome(stored) == storage_outcome(head),
    {
        Self::fetch_storage(head)
    }

    /// The request for the value at a storage address: the entry is looked
    /// up in the metadata, the address is checked against its pallet, and
    /// the key of the address is asked for. An address that fails any of
    /// these gives no request but an internal error with the failure's text.
    pub fn storage_request<Address: StorageAddress>(&self, key: &Address) -> (request: Result<
        StorageRequest,
        ChainHeadError,
    >)
        ensures
            match lookup_key(*key, self.spec_metadata()) {
                Ok(bytes) => request matches Ok(sent) && self.asks_for(sent, bytes),
                Err(e) => request matches Err(error) && error@ == ChainHeadErrorView::Other(e.text()),
            },
    {
        match self.lookup_bytes(key) {
            Ok(bytes) => Ok(
                StorageRequest {
                    subscription_id: self.subscription_id.clone(),
                    hash: self.hash,
                    key: bytes,
                    child_key: None,
                },
            ),
            Err(error) => Err(ChainHeadError::from(error)),
        }
    }

    /// The key that a typed lookup asks for.
    fn lookup_bytes<Address: StorageAddress>(&self, key: &Address) -> (bytes: Result<Vec<u8>, Error>)
        ensures
            outcome(bytes) == lookup_key(*key, self.spec_metadata()),
    {
        let pallet = match lookup_entry_details(key.pallet_name(), key.entry_name(), &self.metadata) {
            Ok((pallet, _)) => pallet,
            Err(error) => {
                return Err(error);
            },
        };
        match validate_storage_address(key, pallet) {
            Ok(()) => {},
            Err(error) => {
                return Err(error);
            },
        }
        storage_address_bytes(key, &self.metadata)
    }

    /// The value at a storage address, from the beginning of the stream
    /// that the storage request opened.
    ///
    /// An address that gives no request fails as the request does, whatever
    /// came back. A stream that did not end in success fails with the error
    /// of its kind, and nothing is decoded. A key without a value gives
    /// `None`, and nothing is decoded. Else `decode` reads the value from
    /// the bytes, against the type that the entry declares; its diagnostic
    /// comes back as an internal error that holds a decode error. Bytes that
    /// `decode` leaves over are ignored.
    pub fn storage<Address: StorageAddress, T, D: FnOnce(&[u8], u32, &Metadata) -> (Result<T, String>, usize)>(
        &self,
        key: &Address,
        head: SubscriptionHead<Option<String>>,
        decode: D,
    ) -> (value: Result<Option<T>, ChainHeadError>)
        requires
            forall|bytes: &[u8], ty: u32| call_requires(decode, (bytes, ty, &self.spec_metadata())),
        ensures
            match lookup_key(*key, self.spec_metadata()) {
                Err(e) => value matches Err(error) && error@ == ChainHeadErrorView::Other(e.text()),
                Ok(_) => match storage_outcome(head) {
                    Err(e) => value matches Err(error) && error@ == e,
                    Ok(None) => value matches Ok(None),
                    Ok(Some(stored)) => exists|bytes: &[u8], answer: Result<T, String>, read: usize|
                        {
                            &&& bytes@ == stored
                            &&& #[trigger] call_ensures(
                                decode,
                                (bytes, self.value_type(*key), &self.spec_metadata()),
                                (answer, read),
                            )
                            &&& match answer {
                                Ok(decoded) => value == Ok::<Option<T>, ChainHeadError>(Some(decoded)),
                                Err(diagnostic) => value matches Err(error) && error@
                                    == ChainHeadErrorView::Other(ErrorView::Decode(diagnostic@).text()),
                            }
                        },
                },
            },
    {
        match self.lookup_bytes(key) {
            Ok(_) => {},
            Err(error) => {
                return Err(ChainHeadError::from(error));
            },
        }
        let storage_bytes = match Self::fetch_storage(head) {
            Ok(storage_bytes) => storage_bytes,
            Err(error) => {
                return Err(error);
            },
        };
        let bytes = match storage_bytes {
            Some(bytes) => bytes,
            None => {
                return Ok(None);
            },
        };
        let entry = match lookup_entry_details(key.pallet_name(), key.entry_name(), &self.metadata) {
            Ok((_, entry)) => entry,
            Err(error) => {
                return Err(ChainHeadError::from(error));
            },
        };
        assert(entry.entry_type.spec_value_ty() == self.value_type(*key));
        let mut cursor: &[u8] = bytes.as_slice();
        match decode_storage_with_metadata(&mut cursor, &self.metadata, entry, decode) {
            Ok(storage) => Ok(Some(storage)),
            Err(error) => Err(ChainHeadError::from(error)),
        }
    }

    /// The request for a runtime call at the block. Missing parameters are
    /// sent as no bytes.
    pub fn call_request(&self, function: String, call_parameters: Option<&[u8]>) -> (request: CallRequest)
        ensures
            request.subscription_id@ == self.spec_subscription_id(),
            request.hash == self.spec_hash(),
            request.function == function,
            request.call_parameters@ == match call_parameters {
                Some(parameters) => parameters@,
                None => Seq::<u8>::empty(),
            },
    {
        let sent = match call_parameters {
            Some(parameters) => copy_bytes(parameters),
            None => Vec::new(),
        };
        CallRequest {
            subscription_id: self.subscription_id.clone(),
            hash: self.hash,
            function,
            call_parameters: sent,
        }
    }

    /// The result of a runtime call at the block, from the beginning of the
    /// stream that the call request opened.
    pub fn call(&self, head: SubscriptionHead<String>) -> (result: Result<Vec<u8>, ChainHeadError>)
        ensures
            outcome(result) == call_outcome(head),
    {
        Self::fetch_call(head)
    }

    /// Gives the block up: the request that tells the node so. The block is
    /// consumed, so nothing can be asked of it afterwards.
    pub fn unpin(self) -> (request: BlockRequest)
        ensures
            self.names(request),
    {
        BlockRequest { subscription_id: self.subscription_id, hash: self.hash }
    }

    /// The request for the events of the block: a storage request for the
    /// key under which the chain keeps its event log.
    pub fn events_request(&self) -> (request: StorageRequest)
        ensures
            self.asks_for(request, events_key()),
    {
        let mut storage_key: Vec<u8> = Vec::new();
        let system = twox_128("System".as_bytes());
        extend_bytes(&mut storage_key, system.as_slice());
        let events = twox_128("Events".as_bytes());
        extend_bytes(&mut storage_key, events.as_slice());
        StorageRequest {
            subscription_id: self.subscription_id.clone(),
            hash: self.hash,
            key: storage_key,
            child_key: None,
        }
    }

    /// The events of the block, from the beginning of the stream that the
    /// events request opened. `decode` reads the list of events from the
    /// stored bytes. A chain that stores nothing under the key of its event
    /// log is an internal error.
    pub fn events<D: FnOnce(&[u8]) -> Vec<EventRecord>>(&self, head: SubscriptionHead<Option<String>>, decode: D) -> (events:
        Result<Events, ChainHeadError>)
        requires
            forall|bytes: &[u8]| call_requires(decode, (bytes,)),
        ensures
            match storage_outcome(head) {
                Err(e) => events matches Err(error) && error@ == e,
                Ok(None) => events matches Err(error) && error@ == ChainHeadErrorView::Other(
                    "Failed to fetch System::Events storage"@,
                ),
                Ok(Some(stored)) => exists|bytes: &[u8], records: Vec<EventRecord>|
                    {
                        &&& bytes@ == stored
                        &&& #[trigger] call_ensures(decode, (bytes,), records)
                        &&& events matches Ok(list)
                        &&& list.spec_block_hash() == self.spec_hash()
                        &&& list.records() == records@
                    },
            },
    {
        let event_bytes = match Self::fetch_storage(head) {
            Ok(Some(event_bytes)) => event_bytes,
            Ok(None) => {
                return Err(ChainHeadError::Other(String::from_str("Failed to fetch System::Events storage")));
            },
            Err(error) => {
                return Err(error);
            },
        };
        let records = decode(event_bytes.as_slice());
        Ok(Events::new(self.hash, records))
    }

    /// Turns the beginning of a body stream into the body.
    fn fetch_body(head: SubscriptionHead<String>) -> (body: Result<Vec<Vec<u8>>, ChainHeadError>)
        ensures
            deep_outcome(body) == body_outcome(head),
    {
        let event = match first_event(head, "Failed to fetch the block body") {
            Ok(event) => event,
            Err(error) => {
                return Err(error);
            },
        };
        let bytes = match Vec::<u8>::try_from(event) {
            Ok(bytes) => bytes,
            Err(error) => {
                return Err(error);
            },
        };
        match decode_byte_strings(bytes.as_slice()) {
            Ok(extrinsics) => Ok(extrinsics),
            Err(diagnostic) => Err(ChainHeadError::from(Error::Codec(diagnostic))),
        }
    }

    /// Turns the node's answer to a header request into the header.
    fn fetch_header<H, D: FnOnce(&[u8]) -> Result<H, String>>(answer: Result<Option<String>, Error>, decode: D) -> (header:
        Result<H, ChainHeadError>)
        requires
            forall|bytes: &[u8]| call_requires(decode, (bytes,)),
        ensures
            match header_bytes(answer) {
                Err(e) => header matches Err(error) && error@ == e,
                Ok(encoded) => exists|bytes: &[u8], decoded: Result<H, String>|
                    {
                        &&& bytes@ == encoded
                        &&& #[trigger] call_ensures(decode, (bytes,), decoded)
                        &&& match decoded {
                            Ok(value) => header == Ok::<H, ChainHeadError>(value),
                            Err(diagnostic) => header matches Err(error) && error@ == ChainHeadErrorView::Other(
                                ErrorView::Codec(diagnostic@).text(),
                            ),
                        }
                    },
            },
    {
        let header = match answer {
            Ok(header) => header,
            Err(error) => {
                return Err(ChainHeadError::from(error));
            },
        };
        let header = match header {
            Some(header) => header,
            None => {
                return Err(ChainHeadError::ResourceNonExistent);
            },
        };
        let bytes = match decode_payload(header.as_str()) {
            Ok(bytes) => bytes,
            Err(diagnostic) => {
                return Err(ChainHeadError::from(Error::Other(diagnostic)));
            },
        };
        match decode(bytes.as_slice()) {
            Ok(header) => Ok(header),
            Err(diagnostic) => Err(ChainHeadError::from(Error::Codec(diagnostic))),
        }
    }

    /// Turns the beginning of a storage stream into the stored bytes.
    fn fetch_storage(head: SubscriptionHead<Option<String>>) -> (stored: Result<Option<Vec<u8>>, ChainHeadError>)
        ensures
            optional_outcome(stored) == storage_outcome(head),
    {
        let event = match first_event(head, "Failed to fetch the block storage") {
            Ok(event) => event,
            Err(error) => {
                return Err(error);
            },
        };
        Option::<Vec<u8>>::try_from(event)
    }

    /// Turns the beginning of a call stream into the result of the call.
    fn fetch_call(head: SubscriptionHead<String>) -> (result: Result<Vec<u8>, ChainHeadError>)
        ensures
            outcome(result) == call_outcome(head),
    {
        let event = match first_event(head, "Failed to execute the runtime API call") {
            Ok(event) => event,
            Err(error) => {
                return Err(error);
            },
        };
        Vec::<u8>::try_from(event)
    }
}

} // verus!
