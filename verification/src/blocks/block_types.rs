//! A block, its body and its extrinsics, and the events that belong to each
//! extrinsic.
//!
//! The events of a block are fetched at most once. A block, its body and
//! every extrinsic of the body hold the same cell, behind a lock that the
//! caller takes for one read-or-fill: under the lock [`get_events`] says
//! whether the cell holds the events or they have to be fetched, and
//! [`cache_events`] stores what the fetch gave before the lock is released.

use crate::error::{BlockError, BlockErrorView, Error, ErrorView};
use crate::events::{share, EventDetails, EventRecord, Events, Phase};
use crate::hexcode::{hash_text, hex_encoded};
use crate::text::str_eq;
use futures::lock::Mutex as AsyncMutex;
use std::sync::Arc;
use vstd::prelude::*;
use vstd::string::*;

verus! {

/// The lock of the `futures` crate. Nothing is known of what it holds, which
/// changes while it is shared.
#[verifier::external_type_specification]
#[verifier::external_body]
#[verifier::reject_recursive_types(T)]
pub struct ExAsyncMutex<T: ?Sized>(futures::lock::Mutex<T>);

/// Calls `Mutex::new` of the `futures` crate, which makes a lock around the
/// content. Nothing is claimed of the lock.
#[verifier::external_body]
fn new_lock(content: Option<Events>) -> (lock: AsyncMutex<Option<Events>>) {
    AsyncMutex::new(content)
}

/// What a block's header tells of the block.
#[derive(Debug, Clone, Copy, PartialEq, Eq)]
pub struct Header {
    /// The hash of the header, which is the hash of the block.
    pub hash: [u8; 32],
    /// The number of the block.
    pub number: u64,
    /// The hash of the block before.
    pub parent_hash: [u8; 32],
}

/// A block as the node returns it.
#[derive(Debug, PartialEq, Eq)]
pub struct ChainBlock {
    /// The header of the block.
    pub header: Header,
    /// The extrinsics of the block, in the order in which the chain applied
    /// them.
    pub extrinsics: Vec<Vec<u8>>,
}

/// The node's answer to a request for a block.
#[derive(Debug, PartialEq, Eq)]
pub struct ChainBlockResponse {
    /// The block.
    pub block: ChainBlock,
}

/// What to do for the events of a block, decided under the lock of the cell.
#[derive(Debug, PartialEq, Eq)]
pub enum EventsStep {
    /// The cell holds the events: these are they.
    Cached(Events),
    /// The cell is empty: the events of the block with this hash have to be
    /// fetched, and stored before the lock is released.
    Fetch([u8; 32]),
}

/// Returns the events from the cell, or says that they have to be fetched.
pub fn get_events(block_hash: [u8; 32], cached_events: &Option<Events>) -> (step: EventsStep)
    ensures
        step == events_step(block_hash, *cached_events),
{
    match cached_events {
        Some(events) => EventsStep::Cached(events.clone()),
        None => EventsStep::Fetch(block_hash),
    }
}

/// Stores what a fetch gave in the cell and returns it. A failed fetch
/// leaves the cell as it was, so that the next reader of an empty cell
/// fetches again.
pub fn cache_events(cached_events: &mut Option<Events>, fetched: Result<Events, Error>) -> (events: Result<
    Events,
    Error,
>)
    ensures
        events == fetched,
        *final(cached_events) == stored(*old(cached_events), fetched),
{
    match fetched {
        Ok(events) => {
            *cached_events = Some(events.clone());
            Ok(events)
        },
        Err(error) => Err(error),
    }
}

/// What [`get_events`] decides for a cell with this content.
pub open spec fn events_step(block_hash: [u8; 32], cell: Option<Events>) -> EventsStep {
    match cell {
        Some(events) => EventsStep::Cached(events),
        None => EventsStep::Fetch(block_hash),
    }
}

/// What a cell holds after a fetch with this result was stored in it.
pub open spec fn stored(cell: Option<Events>, fetched: Result<Events, Error>) -> Option<Events> {
    match fetched {
        Ok(events) => Some(events),
        Err(_) => cell,
    }
}

/// What one reader does under the lock, where a fetch of the block would
/// give `answer`: the cell as the reader leaves it, what the reader gets,
/// and whether the reader fetched. The reader follows [`get_events`], and
/// where that asks for a fetch, [`cache_events`].
pub open spec fn read(cell: Option<Events>, block_hash: [u8; 32], answer: Result<Events, Error>) -> (
    Option<Events>,
    Result<Events, Error>,
    bool,
) {
    match events_step(block_hash, cell) {
        EventsStep::Cached(events) => (cell, Ok(events), false),
        EventsStep::Fetch(_) => (stored(cell, answer), answer, true),
    }
}

/// The cell after `readers` readers, one after the other as the lock lets
/// them in, where every fetch of the block would give `answer`; with it the
/// number of fetches that they made.
pub open spec fn after_readers(
    cell: Option<Events>,
    block_hash: [u8; 32],
    answer: Result<Events, Error>,
    readers: nat,
) -> (Option<Events>, nat)
    decreases readers,
{
    if readers == 0 {
        (cell, 0)
    } else {
        let (before, fetches) = after_readers(cell, block_hash, answer, (readers - 1) as nat);
        let (after, _, fetched) = read(before, block_hash, answer);
        (
            after,
            if fetched {
                fetches + 1
            } else {
                fetches
            },
        )
    }
}

/// What the reader gets who comes after `earlier` others.
pub open spec fn reader_gets(
    cell: Option<Events>,
    block_hash: [u8; 32],
    answer: Result<Events, Error>,
    earlier: nat,
) -> Result<Events, Error> {
    read(after_readers(cell, block_hash, answer, earlier).0, block_hash, answer).1
}

/// Single flight: however many readers ask for the events of a block whose
/// cell is empty, if the node can serve the events then exactly one fetch is
/// made, and every reader gets the events that it gave. The readers may ask
/// at the same time: the lock lets them in one after the other.
pub proof fn lemma_single_flight(block_hash: [u8; 32], events: Events, readers: nat, reader: nat)
    requires
        reader < readers,
    ensures
        after_readers(None, block_hash, Ok(events), readers) == (Some(events), 1nat),
        reader_gets(None, block_hash, Ok(events), reader) == Ok::<Events, Error>(events),
    decreases readers,
{
    if readers > 1 {
        lemma_single_flight(block_hash, events, (readers - 1) as nat, 0);
    }
    if reader > 0 {
        lemma_single_flight(block_hash, events, reader, 0);
    }
}

/// A cell that holds the events is never fetched for again and never
/// changes, whatever a fetch would give.
pub proof fn lemma_filled_cell_is_kept(
    block_hash: [u8; 32],
    events: Events,
    answer: Result<Events, Error>,
    readers: nat,
)
    ensures
        after_readers(Some(events), block_hash, answer, readers) == (Some(events), 0nat),
        reader_gets(Some(events), block_hash, answer, readers) == Ok::<Events, Error>(events),
    decreases readers,
{
    if readers > 0 {
        lemma_filled_cell_is_kept(block_hash, events, answer, (readers - 1) as nat);
    }
}

/// A block.
#[derive(Debug)]
pub struct Block {
    header: Header,
    cached_events: Arc<AsyncMutex<Option<Events>>>,
}

impl Block {
    /// The header of the block.
    pub closed spec fn spec_header(&self) -> Header {
        self.header
    }

    /// The cell that holds the block's events once they are fetched.
    pub closed spec fn cell(&self) -> Arc<AsyncMutex<Option<Events>>> {
        self.cached_events
    }

    /// The block with this header, its events not fetched yet.
    pub fn new(header: Header) -> (block: Block)
        ensures
            block.spec_header() == header,
    {
        Block { header, cached_events: Arc::new(new_lock(None)) }
    }

    /// The hash of the block.
    pub fn hash(&self) -> (hash: [u8; 32])
        ensures
            hash == self.spec_header().hash,
    {
        self.header.hash
    }

    /// The number of the block.
    pub fn number(&self) -> (number: u64)
        ensures
            number == self.spec_header().number,
    {
        self.header.number
    }

    /// The whole header of the block.
    pub fn header(&self) -> (header: &Header)
        ensures
            *header == self.spec_header(),
    {
        &self.header
    }

    /// The cell that holds the block's events once they are fetched. The
    /// caller locks it, and under the lock follows [`Block::events`].
    pub fn cached_events(&self) -> (cell: &Arc<AsyncMutex<Option<Events>>>)
        ensures
            *cell == self.cell(),
    {
        &self.cached_events
    }

    /// The events of the block if the cell holds them, else the request to
    /// fetch them. `cached_events` is what the locked cell of this block
    /// holds.
    pub fn events(&self, cached_events: &Option<Events>) -> (step: EventsStep)
        ensures
            step == events_step(self.spec_header().hash, *cached_events),
    {
        get_events(self.header.hash, cached_events)
    }

    /// The body of the block, from the node's answer to a request for the
    /// block with this block's hash. Where the node has no such block the
    /// hash is reported as not found.
    pub fn body(&self, block_details: Option<ChainBlockResponse>) -> (body: Result<BlockBody, Error>)
        ensures
            match block_details {
                Some(details) => body matches Ok(b) && b.details() == details && b.cell() == self.cell(),
                None => body matches Err(error) && error@ == ErrorView::Block(
                    BlockErrorView::NotFound("0x"@ + hex_encoded(self.spec_header().hash@)),
                ),
            },
    {
        let block_details = match block_details {
            Some(block) => block,
            None => {
                return Err(Error::Block(BlockError::NotFound(hash_text(&self.header.hash))));
            },
        };
        Ok(BlockBody::new(block_details, share(&self.cached_events)))
    }
}

/// The body of a block.
#[derive(Debug)]
pub struct BlockBody {
    details: ChainBlockResponse,
    cached_events: Arc<AsyncMutex<Option<Events>>>,
}

impl BlockBody {
    /// The node's answer that the body was made from.
    pub closed spec fn details(&self) -> ChainBlockResponse {
        self.details
    }

    /// The cell that holds the block's events once they are fetched.
    pub closed spec fn cell(&self) -> Arc<AsyncMutex<Option<Events>>> {
        self.cached_events
    }

    /// The extrinsics of the body as byte strings, in order.
    pub open spec fn extrinsic_bytes(&self) -> Seq<Seq<u8>> {
        self.details().block.extrinsics.deep_view()
    }

    /// The body made from the node's answer, with the cell of its block.
    pub(crate) fn new(details: ChainBlockResponse, cached_events: Arc<AsyncMutex<Option<Events>>>) -> (body:
        BlockBody)
        ensures
            body.details() == details,
            body.cell() == cached_events,
    {
        BlockBody { details, cached_events }
    }

    /// The extrinsics of the body, in the order of the chain, each with its
    /// position as its index. The index is the position modulo 2^32.
    pub fn extrinsics(&self) -> (extrinsics: Vec<Extrinsic<'_>>)
        ensures
            extrinsics@.len() == self.extrinsic_bytes().len(),
            forall|i: int|
                0 <= i < extrinsics@.len() ==> {
                    &&& (#[trigger] extrinsics@[i]).spec_index() == i % 0x1_0000_0000
                    &&& extrinsics@[i].spec_bytes() == self.extrinsic_bytes()[i]
                    &&& extrinsics@[i].spec_block_hash() == self.details().block.header.hash
                    &&& extrinsics@[i].cell() == self.cell()
                },
    {
        let mut extrinsics: Vec<Extrinsic<'_>> = Vec::new();
        let mut idx: usize = 0;
        let all = &self.details.block.extrinsics;
        while idx < all.len()
            invariant
                idx <= all@.len(),
                *all == self.details().block.extrinsics,
                extrinsics@.len() == idx,
                forall|i: int|
                    0 <= i < idx ==> {
                        &&& (#[trigger] extrinsics@[i]).spec_index() == i % 0x1_0000_0000
                        &&& extrinsics@[i].spec_bytes() == self.extrinsic_bytes()[i]
                        &&& extrinsics@[i].spec_block_hash() == self.details().block.header.hash
                        &&& extrinsics@[i].cell() == self.cell()
                    },
            decreases all@.len() - idx,
        {
            extrinsics.push(
                Extrinsic {
                    index: low_u32(idx),
                    bytes: all[idx].as_slice(),
                    block_hash: self.details.block.header.hash,
                    cached_events: share(&self.cached_events),
                },
            );
            idx += 1;
        }
        extrinsics
    }
}

/// The low 32 bits of a position.
fn low_u32(position: usize) -> (low: u32)
    ensures
        low == (position as int) % 0x1_0000_0000,
{
    let wide: u64 = position as u64;
    (wide % 0x1_0000_0000u64) as u32
}

/// One extrinsic of a block. It borrows its bytes from the body.
#[derive(Debug)]
pub struct Extrinsic<'a> {
    index: u32,
    bytes: &'a [u8],
    block_hash: [u8; 32],
    cached_events: Arc<AsyncMutex<Option<Events>>>,
}

impl<'a> Extrinsic<'a> {
    /// The index of the extrinsic in the block.
    pub closed spec fn spec_index(&self) -> u32 {
        self.index
    }

    /// The bytes of the extrinsic.
    pub closed spec fn spec_bytes(&self) -> Seq<u8> {
        self.bytes@
    }

    /// The hash of the block that holds the extrinsic.
    pub closed spec fn spec_block_hash(&self) -> [u8; 32] {
        self.block_hash
    }

    /// The cell that holds the block's events once they are fetched.
    pub closed spec fn cell(&self) -> Arc<AsyncMutex<Option<Events>>> {
        self.cached_events
    }

    /// The index of the extrinsic in the block.
    pub fn index(&self) -> (index: u32)
        ensures
            index == self.spec_index(),
    {
        self.index
    }

    /// The bytes of the extrinsic.
    pub fn bytes(&self) -> (bytes: &'a [u8])
        ensures
            bytes@ == self.spec_bytes(),
    {
        self.bytes
    }

    /// The hash of the block that holds the extrinsic.
    pub fn block_hash(&self) -> (hash: [u8; 32])
        ensures
            hash == self.spec_block_hash(),
    {
        self.block_hash
    }

    /// The cell that holds the block's events once they are fetched. The
    /// caller locks it, and under the lock follows [`get_events`].
    pub fn cached_events(&self) -> (cell: &Arc<AsyncMutex<Option<Events>>>)
        ensures
            *cell == self.cell(),
    {
        &self.cached_events
    }

    /// The events of the extrinsic, from the events of its block as the
    /// cell gave them, and the hash of the extrinsic.
    pub fn events(&self, ext_hash: [u8; 32], events: Result<Events, Error>) -> (found: Result<
        ExtrinsicEvents,
        Error,
    >)
        ensures
            match events {
                Ok(all) => found matches Ok(own) && own.spec_extrinsic_hash() == ext_hash
                    && own.spec_extrinsic_index() == self.spec_index() && own.all_events() == all,
                Err(error) => found matches Err(e) && e == error,
            },
    {
        match events {
            Ok(events) => Ok(ExtrinsicEvents::new(ext_hash, self.index, events)),
            Err(error) => Err(error),
        }
    }
}

/// Whether an entry of a block's event list belongs to the extrinsic at
/// `idx`: an event does if it was emitted while that extrinsic was applied,
/// and an entry that could not be decoded belongs to every extrinsic, since
/// nothing tells where it came from.
pub open spec fn belongs(record: EventRecord, idx: u32) -> bool {
    match record {
        Ok(event) => event.phase == Phase::ApplyExtrinsic(idx),
        Err(_) => true,
    }
}

/// [`belongs`] as a predicate on entries.
pub open spec fn belongs_to(idx: u32) -> spec_fn(EventRecord) -> bool {
    |record: EventRecord| belongs(record, idx)
}

/// The entries of a block's event list that belong to the extrinsic at
/// `idx`, in their order.
pub open spec fn events_of(records: Seq<EventRecord>, idx: u32) -> Seq<EventRecord> {
    records.filter(belongs_to(idx))
}

/// Whether an entry is picked by a search for the event of this pallet and
/// name among those of the extrinsic at `idx`: the events of that name, and
/// every entry that could not be decoded.
pub open spec fn picks(record: EventRecord, idx: u32, pallet: Seq<char>, variant: Seq<char>) -> bool {
    match record {
        Ok(event) => event.phase == Phase::ApplyExtrinsic(idx) && event.pallet_name@ == pallet
            && event.variant_name@ == variant,
        Err(_) => true,
    }
}

/// [`picks`] as a predicate on entries.
pub open spec fn picked_by(idx: u32, pallet: Seq<char>, variant: Seq<char>) -> spec_fn(EventRecord) -> bool {
    |record: EventRecord| picks(record, idx, pallet, variant)
}

/// The entries that a search picks, in their order.
pub open spec fn picked(records: Seq<EventRecord>, idx: u32, pallet: Seq<char>, variant: Seq<char>) -> Seq<
    EventRecord,
> {
    records.filter(picked_by(idx, pallet, variant))
}

/// Whether `found` is what a picked entry gives: an entry that could not be
/// decoded gives its error, and an event gives what `decode` makes of its
/// fields, a diagnostic of `decode` being a codec error.
pub open spec fn typed<Ev, D: Fn(&[u8]) -> Result<Ev, String>>(
    record: EventRecord,
    decode: D,
    found: Result<Ev, Error>,
) -> bool {
    match record {
        Err(error) => found matches Err(e) && e@ == error@,
        Ok(event) => exists|fields: &[u8], answer: Result<Ev, String>|
            {
                &&& fields@ == event.field_bytes@
                &&& #[trigger] call_ensures(decode, (fields,), answer)
                &&& match answer {
                    Ok(value) => found == Ok::<Ev, Error>(value),
                    Err(diagnostic) => found matches Err(e) && e@ == ErrorView::Codec(diagnostic@),
                }
            },
    }
}

/// A filter is not changed by the entries that it drops: if it keeps nothing
/// of the first `i` entries and keeps the entry at `i`, that entry is the
/// first that it keeps of the whole list.
pub proof fn lemma_first_kept(records: Seq<EventRecord>, keep: spec_fn(EventRecord) -> bool, i: int)
    requires
        0 <= i < records.len(),
        records.take(i).filter(keep).len() == 0,
        keep(records[i]),
    ensures
        records.filter(keep).len() > 0,
        records.filter(keep)[0] == records[i],
{
    let head = records.take(i + 1);
    let tail = records.skip(i + 1);
    assert(head.drop_last() == records.take(i));
    assert(head.filter(keep) == records.take(i).filter(keep).push(records[i])) by {
        reveal(Seq::filter);
    }
    assert(records == head + tail);
    Seq::filter_distributes_over_add(head, tail, keep);
}

/// What a filter keeps of one entry more: the entry, behind what it kept
/// before, if it keeps the entry, else what it kept before.
pub proof fn lemma_filter_step(records: Seq<EventRecord>, keep: spec_fn(EventRecord) -> bool, i: int)
    requires
        0 <= i < records.len(),
    ensures
        records.take(i + 1).filter(keep) == if keep(records[i]) {
            records.take(i).filter(keep).push(records[i])
        } else {
            records.take(i).filter(keep)
        },
{
    let head = records.take(i + 1);
    assert(head.drop_last() == records.take(i));
    reveal(Seq::filter);
}

/// Whether an entry belongs to the extrinsic at `idx`.
fn record_belongs(record: &EventRecord, idx: u32) -> (kept: bool)
    ensures
        kept == belongs(*record, idx),
{
    match record {
        Ok(event) => event.phase == Phase::ApplyExtrinsic(idx),
        Err(_) => true,
    }
}

/// Whether a search for the event of this pallet and name picks an entry.
fn record_picked(record: &EventRecord, idx: u32, pallet: &str, variant: &str) -> (kept: bool)
    ensures
        kept == picks(*record, idx, pallet@, variant@),
{
    match record {
        Ok(event) => event.phase == Phase::ApplyExtrinsic(idx) && str_eq(event.pallet_name.as_str(), pallet)
            && str_eq(event.variant_name.as_str(), variant),
        Err(_) => true,
    }
}

/// What a picked entry gives.
fn record_typed<Ev, D: Fn(&[u8]) -> Result<Ev, String>>(record: &EventRecord, decode: &D) -> (found: Result<
    Ev,
    Error,
>)
    requires
        forall|fields: &[u8]| call_requires(*decode, (fields,)),
    ensures
        typed(*record, *decode, found),
{
    match record {
        Err(error) => Err(error.clone()),
        Ok(event) => match decode(event.field_bytes.as_slice()) {
            Ok(value) => Ok(value),
            Err(diagnostic) => Err(Error::Codec(diagnostic)),
        },
    }
}

/// The events of one extrinsic: a view of the events of its block, which it
/// filters whenever it is asked.
#[derive(Debug)]
pub struct ExtrinsicEvents {
    ext_hash: [u8; 32],
    idx: u32,
    events: Events,
}

impl ExtrinsicEvents {
    /// The hash of the extrinsic.
    pub closed spec fn spec_extrinsic_hash(&self) -> [u8; 32] {
        self.ext_hash
    }

    /// The index of the extrinsic in its block.
    pub closed spec fn spec_extrinsic_index(&self) -> u32 {
        self.idx
    }

    /// All the events of the block.
    pub closed spec fn all_events(&self) -> Events {
        self.events
    }

    /// The events of the extrinsic, in their order.
    pub open spec fn own_events(&self) -> Seq<EventRecord> {
        events_of(self.all_events().records(), self.spec_extrinsic_index())
    }

    /// The events of the extrinsic with this hash at this index, out of
    /// the events of its block.
    pub fn new(ext_hash: [u8; 32], idx: u32, events: Events) -> (own: ExtrinsicEvents)
        ensures
            own.spec_extrinsic_hash() == ext_hash,
            own.spec_extrinsic_index() == idx,
            own.all_events() == events,
    {
        ExtrinsicEvents { ext_hash, idx, events }
    }

    /// The hash of the block that the extrinsic is in.
    pub fn block_hash(&self) -> (hash: [u8; 32])
        ensures
            hash == self.all_events().spec_block_hash(),
    {
        self.events.block_hash()
    }

    /// The index of the extrinsic that the events come from.
    pub fn extrinsic_index(&self) -> (index: u32)
        ensures
            index == self.spec_extrinsic_index(),
    {
        self.idx
    }

    /// The hash of the extrinsic.
    pub fn extrinsic_hash(&self) -> (hash: [u8; 32])
        ensures
            hash == self.spec_extrinsic_hash(),
    {
        self.ext_hash
    }

    /// All the events of the block that the extrinsic is in.
    pub fn all_events_in_block(&self) -> (events: &Events)
        ensures
            *events == self.all_events(),
    {
        &self.events
    }

    /// The events of the extrinsic, in their order: those emitted while the
    /// extrinsic was applied, and every entry that could not be decoded.
    /// Each call filters the block's list anew.
    pub fn iter(&self) -> (own: Vec<&EventRecord>)
        ensures
            own@.len() == self.own_events().len(),
            forall|i: int| 0 <= i < own@.len() ==> *own@[i] == self.own_events()[i],
    {
        let all = self.events.iter();
        let mut own: Vec<&EventRecord> = Vec::new();
        let mut i: usize = 0;
        assert(all@.take(0).filter(belongs_to(self.idx)).len() == 0) by {
            reveal(Seq::filter);
        }
        while i < all.len()
            invariant
                i <= all@.len(),
                all@ == self.all_events().records(),
                own@.len() == all@.take(i as int).filter(belongs_to(self.idx)).len(),
                forall|j: int|
                    0 <= j < own@.len() ==> *own@[j] == all@.take(i as int).filter(belongs_to(self.idx))[j],
            decreases all@.len() - i,
        {
            proof {
                lemma_filter_step(all@, belongs_to(self.idx), i as int);
            }
            if record_belongs(&all[i], self.idx) {
                own.push(&all[i]);
            }
            i += 1;
        }
        assert(all@.take(all@.len() as int) == all@);
        own
    }

    /// The events of the extrinsic that are the event of this pallet and
    /// name, each decoded by `decode` from its fields, in their order. An
    /// entry that could not be decoded is found too, as its error, and so is
    /// an event whose fields `decode` refuses.
    pub fn find<Ev, D: Fn(&[u8]) -> Result<Ev, String>>(&self, pallet: &str, variant: &str, decode: D) -> (found:
        Vec<Result<Ev, Error>>)
        requires
            forall|fields: &[u8]| call_requires(decode, (fields,)),
        ensures
            found@.len() == self.picked_events(pallet@, variant@).len(),
            forall|i: int|
                0 <= i < found@.len() ==> typed(self.picked_events(pallet@, variant@)[i], decode, found@[i]),
    {
        let all = self.events.iter();
        let keep = Ghost(picked_by(self.idx, pallet@, variant@));
        let mut found: Vec<Result<Ev, Error>> = Vec::new();
        let mut i: usize = 0;
        assert(all@.take(0).filter(keep@).len() == 0) by {
            reveal(Seq::filter);
        }
        while i < all.len()
            invariant
                i <= all@.len(),
                all@ == self.all_events().records(),
                keep@ == picked_by(self.idx, pallet@, variant@),
                forall|fields: &[u8]| call_requires(decode, (fields,)),
                found@.len() == all@.take(i as int).filter(keep@).len(),
                forall|j: int|
                    0 <= j < found@.len() ==> typed(all@.take(i as int).filter(keep@)[j], decode, found@[j]),
            decreases all@.len() - i,
        {
            proof {
                lemma_filter_step(all@, keep@, i as int);
            }
            if record_picked(&all[i], self.idx, pallet, variant) {
                let item = record_typed(&all[i], &decode);
                found.push(item);
            }
            i += 1;
        }
        assert(all@.take(all@.len() as int) == all@);
        found
    }

    /// The entries that a search for the event of this pallet and name picks
    /// among the events of the block.
    pub open spec fn picked_events(&self, pallet: Seq<char>, variant: Seq<char>) -> Seq<EventRecord> {
        picked(self.all_events().records(), self.spec_extrinsic_index(), pallet, variant)
    }

    /// The first of what [`ExtrinsicEvents::find`] finds: `None` if nothing
    /// is picked, else what the first picked entry gives. Entries behind it
    /// are not decoded.
    pub fn find_first<Ev, D: Fn(&[u8]) -> Result<Ev, String>>(&self, pallet: &str, variant: &str, decode: D) -> (first:
        Result<Option<Ev>, Error>)
        requires
            forall|fields: &[u8]| call_requires(decode, (fields,)),
        ensures
            match first {
                Ok(None) => self.picked_events(pallet@, variant@).len() == 0,
                Ok(Some(value)) => self.picked_events(pallet@, variant@).len() > 0 && typed(
                    self.picked_events(pallet@, variant@)[0],
                    decode,
                    Ok::<Ev, Error>(value),
                ),
                Err(error) => self.picked_events(pallet@, variant@).len() > 0 && typed(
                    self.picked_events(pallet@, variant@)[0],
                    decode,
                    Err::<Ev, Error>(error),
                ),
            },
    {
        let all = self.events.iter();
        let keep = Ghost(picked_by(self.idx, pallet@, variant@));
        let mut i: usize = 0;
        assert(all@.take(0).filter(keep@).len() == 0) by {
            reveal(Seq::filter);
        }
        while i < all.len()
            invariant
                i <= all@.len(),
                all@ == self.all_events().records(),
                keep@ == picked_by(self.idx, pallet@, variant@),
                forall|fields: &[u8]| call_requires(decode, (fields,)),
                all@.take(i as int).filter(keep@).len() == 0,
            decreases all@.len() - i,
        {
            proof {
                lemma_filter_step(all@, keep@, i as int);
            }
            if record_picked(&all[i], self.idx, pallet, variant) {
                proof {
                    lemma_first_kept(all@, keep@, i as int);
                }
                return match record_typed(&all[i], &decode) {
                    Ok(value) => Ok(Some(value)),
                    Err(error) => Err(error),
                };
            }
            i += 1;
        }
        assert(all@.take(all@.len() as int) == all@);
        Ok(None)
    }

    /// Whether [`ExtrinsicEvents::find`] finds anything: `false` if nothing
    /// is picked, `true` if the first picked entry gives an event, and the
    /// error if it gives one.
    pub fn has<Ev, D: Fn(&[u8]) -> Result<Ev, String>>(&self, pallet: &str, variant: &str, decode: D) -> (found:
        Result<bool, Error>)
        requires
            forall|fields: &[u8]| call_requires(decode, (fields,)),
        ensures
            match found {
                Ok(false) => self.picked_events(pallet@, variant@).len() == 0,
                Ok(true) => self.picked_events(pallet@, variant@).len() > 0 && exists|value: Ev|
                    typed(self.picked_events(pallet@, variant@)[0], decode, Ok::<Ev, Error>(value)),
                Err(error) => self.picked_events(pallet@, variant@).len() > 0 && typed(
                    self.picked_events(pallet@, variant@)[0],
                    decode,
                    Err::<Ev, Error>(error),
                ),
            },
    {
        match self.find_first(pallet, variant, decode) {
            Ok(first) => Ok(first.is_some()),
            Err(error) => Err(error),
        }
    }
}

/// No event belongs to two extrinsics: an entry that belongs to the
/// extrinsics at two different indices is one that could not be decoded.
/// And such an entry belongs to every extrinsic.
pub proof fn lemma_event_of_one_extrinsic(record: EventRecord, i: u32, j: u32)
    requires
        i != j,
    ensures
        belongs(record, i) && belongs(record, j) ==> record is Err,
        record is Err ==> belongs(record, i) && belongs(record, j),
{
}

/// Filtering the events of a block by the indices of its extrinsics parts
/// them: the lists of two different extrinsics share nothing but entries
/// that could not be decoded, and each of those that the block has stands in
/// both.
pub proof fn lemma_events_of_extrinsics_are_apart(records: Seq<EventRecord>, i: u32, j: u32, record: EventRecord)
    requires
        i != j,
    ensures
        events_of(records, i).contains(record) && events_of(records, j).contains(record) ==> record is Err,
        records.contains(record) && record is Err ==> events_of(records, i).contains(record) && events_of(
            records,
            j,
        ).contains(record),
{
    if events_of(records, i).contains(record) && events_of(records, j).contains(record) {
        let p = choose|p: int| 0 <= p < events_of(records, i).len() && events_of(records, i)[p] == record;
        records.lemma_filter_pred(belongs_to(i), p);
        let q = choose|q: int| 0 <= q < events_of(records, j).len() && events_of(records, j)[q] == record;
        records.lemma_filter_pred(belongs_to(j), q);
    }
    if records.contains(record) && record is Err {
        let p = choose|p: int| 0 <= p < records.len() && records[p] == record;
        records.lemma_filter_contains(belongs_to(i), p);
        records.lemma_filter_contains(belongs_to(j), p);
    }
}

} // verus!
