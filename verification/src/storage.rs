//! Storage access: the address of an entry, the key that the address
//! stands for, and the checks and decoding that go with a lookup.

pub mod address;
pub mod utils;

pub use address::{Address, StorageAddress};
