//! Blocks: the block that a chain-head subscription pins, and the plain
//! block with its body, its extrinsics and their events.

pub mod block_types;
pub mod chain_head;

pub use block_types::{
    cache_events, get_events, Block, BlockBody, ChainBlock, ChainBlockResponse, EventsStep, Extrinsic, ExtrinsicEvents,
    Header,
};
pub use chain_head::ChainHeadBlock;
