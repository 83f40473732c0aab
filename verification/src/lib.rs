//! Client-side access to a ledger node: storage keys derived from the
//! runtime metadata, typed decoding of what the node answers, and the blocks
//! that a chain-head subscription hands out, with their events.
//!
//! Nothing here performs I/O. Every operation that talks to the node is split
//! into the request to send and the conversion of what came back, so that the
//! decisions are verified and the transport stays with the caller.

pub mod blocks;
pub mod error;
pub mod events;
pub mod hashing;
pub mod hexcode;
pub mod metadata;
pub mod rpc;
pub mod scale;
pub mod storage;
pub mod text;

pub use blocks::{
    cache_events, get_events, Block, BlockBody, ChainBlock, ChainBlockResponse, ChainHeadBlock, EventsStep, Extrinsic,
    ExtrinsicEvents, Header,
};
pub use error::{BlockError, ChainHeadError, Error, MetadataError, StorageAddressError};
pub use events::{EventDetails, EventRecord, Events, Phase};
pub use metadata::{Metadata, PalletMetadata, StorageEntryMetadata, StorageEntryType, StorageHasher, StorageMetadata};
pub use rpc::{
    BlockRequest, CallRequest, ChainHeadEvent, ChainHeadResult, ErrorEvent, StorageRequest, SubscriptionHead,
};
pub use storage::{Address, StorageAddress};
