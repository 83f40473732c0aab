//! The events of a block, decoded: for each event the phase of the block in
//! which it was emitted, the pallet and variant that emitted it, and the
//! bytes of its fields. An event that could not be decoded stands in the
//! list as the error that its decoding gave.

use crate::error::Error;
use std::sync::Arc;
use vstd::prelude::*;
use vstd::string::*;

verus! {

/// When in the execution of a block an event was emitted.
#[derive(Debug, Clone, Copy, PartialEq, Eq, Structural)]
pub enum Phase {
    /// While the extrinsic at this index was applied.
    ApplyExtrinsic(u32),
    /// While the block was finalized.
    Finalization,
    /// While the block was initialized.
    Initialization,
}

/// One decoded event.
#[derive(Debug, PartialEq, Eq)]
pub struct EventDetails {
    /// When the event was emitted.
    pub phase: Phase,
    /// The position of the event in the block's list.
    pub index: u32,
    /// The name of the pallet that emitted the event.
    pub pallet_name: String,
    /// The name of the event among those of its pallet.
    pub variant_name: String,
    /// The encoded fields of the event.
    pub field_bytes: Vec<u8>,
}

impl EventDetails {
    /// When the event was emitted.
    pub fn phase(&self) -> (phase: Phase)
        ensures
            phase == self.phase,
    {
        self.phase
    }

    /// The position of the event in the block's list.
    pub fn index(&self) -> (index: u32)
        ensures
            index == self.index,
    {
        self.index
    }

    /// The name of the pallet that emitted the event.
    pub fn pallet_name(&self) -> (name: &str)
        ensures
            name@ == self.pallet_name@,
    {
        self.pallet_name.as_str()
    }

    /// The name of the event among those of its pallet.
    pub fn variant_name(&self) -> (name: &str)
        ensures
            name@ == self.variant_name@,
    {
        self.variant_name.as_str()
    }

    /// The encoded fields of the event.
    pub fn field_bytes(&self) -> (bytes: &[u8])
        ensures
            bytes@ == self.field_bytes@,
    {
        self.field_bytes.as_slice()
    }
}

/// One entry of a block's event list: the event, or the error that its
/// decoding gave.
pub type EventRecord = Result<EventDetails, Error>;

/// Calls `Arc::clone`, which returns another pointer to the same value.
#[verifier::external_body]
pub(crate) fn share<T>(value: &Arc<T>) -> (shared: Arc<T>)
    ensures
        shared == *value,
{
    Arc::clone(value)
}

/// The events of one block, in the order in which they were emitted. The
/// list is never changed, and a clone shares it.
#[derive(Debug, PartialEq, Eq)]
pub struct Events {
    block_hash: [u8; 32],
    records: Arc<Vec<Result<EventDetails, Error>>>,
}

impl Events {
    /// The hash of the block that the events belong to.
    pub closed spec fn spec_block_hash(&self) -> [u8; 32] {
        self.block_hash
    }

    /// The events, in order.
    pub closed spec fn records(&self) -> Seq<Result<EventDetails, Error>> {
        self.records@
    }

    /// The events of the block with this hash.
    pub fn new(block_hash: [u8; 32], records: Vec<Result<EventDetails, Error>>) -> (events: Events)
        ensures
            events.spec_block_hash() == block_hash,
            events.records() == records@,
    {
        Events { block_hash, records: Arc::new(records) }
    }

    /// The hash of the block that the events belong to.
    pub fn block_hash(&self) -> (hash: [u8; 32])
        ensures
            hash == self.spec_block_hash(),
    {
        self.block_hash
    }

    /// The number of events.
    pub fn len(&self) -> (len: usize)
        ensures
            len == self.records().len(),
    {
        self.records.len()
    }

    /// Whether the block has no events.
    pub fn is_empty(&self) -> (empty: bool)
        ensures
            empty == (self.records().len() == 0),
    {
        self.records.len() == 0
    }

    /// All the events, in order.
    pub fn iter(&self) -> (all: &[Result<EventDetails, Error>])
        ensures
            all@ == self.records(),
    {
        self.records.as_slice()
    }
}

impl Clone for Events {
    fn clone(&self) -> (copy: Events)
        ensures
            copy == *self,
    {
        Events { block_hash: self.block_hash, records: share(&self.records) }
    }
}

} // verus!
