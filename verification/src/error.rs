//! The errors of the library and the text each of them shows.

use crate::text::prefixed;
use vstd::prelude::*;
use vstd::std_specs::convert::FromSpecImpl;
use vstd::string::*;

verus! {

/// The metadata does not describe what was asked of it.
#[derive(Debug, PartialEq, Eq)]
pub enum MetadataError {
    /// No pallet has this name.
    PalletNameNotFound(String),
    /// The pallet of this name has no storage section.
    StorageNotFoundInPallet(String),
    /// The pallet's storage section has no entry of this name.
    StorageEntryNotFound(String),
    /// The hash compiled into the caller differs from the one in the metadata.
    IncompatibleCodegen,
}

/// The mathematical value of a [`MetadataError`].
pub enum MetadataErrorView {
    PalletNameNotFound(Seq<char>),
    StorageNotFoundInPallet(Seq<char>),
    StorageEntryNotFound(Seq<char>),
    IncompatibleCodegen,
}

impl View for MetadataError {
    type V = MetadataErrorView;

    open spec fn view(&self) -> MetadataErrorView {
        match self {
            MetadataError::PalletNameNotFound(name) => MetadataErrorView::PalletNameNotFound(name@),
            MetadataError::StorageNotFoundInPallet(name) => MetadataErrorView::StorageNotFoundInPallet(name@),
            MetadataError::StorageEntryNotFound(name) => MetadataErrorView::StorageEntryNotFound(name@),
            MetadataError::IncompatibleCodegen => MetadataErrorView::IncompatibleCodegen,
        }
    }
}

impl MetadataErrorView {
    /// The text shown for the error.
    pub open spec fn text(self) -> Seq<char> {
        match self {
            MetadataErrorView::PalletNameNotFound(name) => "Pallet with name not found: "@ + name,
            MetadataErrorView::StorageNotFoundInPallet(name) => "Storage details not found in pallet with name: "@ + name,
            MetadataErrorView::StorageEntryNotFound(name) => "Storage entry not found: "@ + name,
            MetadataErrorView::IncompatibleCodegen => "The generated code is not compatible with the node"@,
        }
    }
}

impl MetadataError {
    /// The text shown for the error.
    pub fn message(&self) -> (text: String)
        ensures
            text@ == self@.text(),
    {
        match self {
            MetadataError::PalletNameNotFound(name) => prefixed("Pallet with name not found: ", name.as_str()),
            MetadataError::StorageNotFoundInPallet(name) => prefixed(
                "Storage details not found in pallet with name: ",
                name.as_str(),
            ),
            MetadataError::StorageEntryNotFound(name) => prefixed("Storage entry not found: ", name.as_str()),
            MetadataError::IncompatibleCodegen => String::from_str(
                "The generated code is not compatible with the node",
            ),
        }
    }
}

impl Clone for MetadataError {
    fn clone(&self) -> (copy: Self)
        ensures
            copy@ == self@,
    {
        match self {
            MetadataError::PalletNameNotFound(name) => MetadataError::PalletNameNotFound(name.clone()),
            MetadataError::StorageNotFoundInPallet(name) => MetadataError::StorageNotFoundInPallet(name.clone()),
            MetadataError::StorageEntryNotFound(name) => MetadataError::StorageEntryNotFound(name.clone()),
            MetadataError::IncompatibleCodegen => MetadataError::IncompatibleCodegen,
        }
    }
}

/// A block could not be had.
#[derive(Debug, PartialEq, Eq)]
pub enum BlockError {
    /// The node knows no block with this hash, written in hex after `0x`.
    NotFound(String),
}

/// The mathematical value of a [`BlockError`].
pub enum BlockErrorView {
    NotFound(Seq<char>),
}

impl View for BlockError {
    type V = BlockErrorView;

    open spec fn view(&self) -> BlockErrorView {
        match self {
            BlockError::NotFound(hash) => BlockErrorView::NotFound(hash@),
        }
    }
}

impl BlockErrorView {
    /// The text shown for the error.
    pub open spec fn text(self) -> Seq<char> {
        match self {
            BlockErrorView::NotFound(hash) => "Could not find a block with hash "@ + hash,
        }
    }
}

impl BlockError {
    /// The text shown for the error.
    pub fn message(&self) -> (text: String)
        ensures
            text@ == self@.text(),
    {
        match self {
            BlockError::NotFound(hash) => prefixed("Could not find a block with hash ", hash.as_str()),
        }
    }
}

impl Clone for BlockError {
    fn clone(&self) -> (copy: Self)
        ensures
            copy@ == self@,
    {
        match self {
            BlockError::NotFound(hash) => BlockError::NotFound(hash.clone()),
        }
    }
}

/// A storage address does not fit the entry it names.
#[derive(Debug, Clone, Copy, PartialEq, Eq, Structural)]
pub enum StorageAddressError {
    /// The address carries `actual` map keys where the entry takes `expected`.
    WrongNumberOfKeys { actual: usize, expected: usize },
}

impl StorageAddressError {
    /// The text shown for the error.
    pub open spec fn text(self) -> Seq<char> {
        "Storage lookup was given the wrong number of keys"@
    }

    /// The text shown for the error.
    pub fn message(&self) -> (text: String)
        ensures
            text@ == self.text(),
    {
        String::from_str("Storage lookup was given the wrong number of keys")
    }
}

/// Any error of the library outside a chain-head operation.
#[derive(Debug, PartialEq, Eq)]
pub enum Error {
    /// The metadata does not describe what was asked of it.
    Metadata(MetadataError),
    /// A block could not be had.
    Block(BlockError),
    /// A storage address cannot be encoded against the metadata.
    Storage(StorageAddressError),
    /// The codec could not read a list or a number, with its diagnostic.
    Codec(String),
    /// A value could not be decoded against its type, with the decoder's
    /// diagnostic.
    Decode(String),
    /// The transport failed, with its diagnostic.
    Rpc(String),
    /// Anything else.
    Other(String),
}

/// The mathematical value of an [`Error`].
pub enum ErrorView {
    Metadata(MetadataErrorView),
    Block(BlockErrorView),
    Storage(StorageAddressError),
    Codec(Seq<char>),
    Decode(Seq<char>),
    Rpc(Seq<char>),
    Other(Seq<char>),
}

impl View for Error {
    type V = ErrorView;

    open spec fn view(&self) -> ErrorView {
        match self {
            Error::Metadata(e) => ErrorView::Metadata(e@),
            Error::Block(e) => ErrorView::Block(e@),
            Error::Storage(e) => ErrorView::Storage(*e),
            Error::Codec(text) => ErrorView::Codec(text@),
            Error::Decode(text) => ErrorView::Decode(text@),
            Error::Rpc(text) => ErrorView::Rpc(text@),
            Error::Other(text) => ErrorView::Other(text@),
        }
    }
}

impl ErrorView {
    /// The text shown for the error.
    pub open spec fn text(self) -> Seq<char> {
        match self {
            ErrorView::Metadata(e) => "Metadata error: "@ + e.text(),
            ErrorView::Block(e) => "Block error: "@ + e.text(),
            ErrorView::Storage(e) => "Storage address error: "@ + e.text(),
            ErrorView::Codec(text) => "Scale codec error: "@ + text,
            ErrorView::Decode(text) => "Decode error: "@ + text,
            ErrorView::Rpc(text) => "Rpc error: "@ + text,
            ErrorView::Other(text) => "Other error: "@ + text,
        }
    }
}

impl Error {
    /// The text shown for the error.
    pub fn message(&self) -> (text: String)
        ensures
            text@ == self@.text(),
    {
        match self {
            Error::Metadata(e) => {
                let inner = e.message();
                prefixed("Metadata error: ", inner.as_str())
            },
            Error::Block(e) => {
                let inner = e.message();
                prefixed("Block error: ", inner.as_str())
            },
            Error::Storage(e) => {
                let inner = e.message();
                prefixed("Storage address error: ", inner.as_str())
            },
            Error::Codec(text) => prefixed("Scale codec error: ", text.as_str()),
            Error::Decode(text) => prefixed("Decode error: ", text.as_str()),
            Error::Rpc(text) => prefixed("Rpc error: ", text.as_str()),
            Error::Other(text) => prefixed("Other error: ", text.as_str()),
        }
    }
}

impl Clone for Error {
    fn clone(&self) -> (copy: Self)
        ensures
            copy@ == self@,
    {
        match self {
            Error::Metadata(e) => Error::Metadata(e.clone()),
            Error::Block(e) => Error::Block(e.clone()),
            Error::Storage(e) => Error::Storage(*e),
            Error::Codec(text) => Error::Codec(text.clone()),
            Error::Decode(text) => Error::Decode(text.clone()),
            Error::Rpc(text) => Error::Rpc(text.clone()),
            Error::Other(text) => Error::Other(text.clone()),
        }
    }
}

/// How an operation on a chain-head block failed.
#[derive(Debug, PartialEq, Eq)]
pub enum ChainHeadError {
    /// What was asked for cannot be reached now. Asking again later may
    /// succeed.
    Inaccessible(String),
    /// The node met an error. This is definitive.
    Error(String),
    /// The node no longer knows the subscription that the block came from.
    Disjoint,
    /// The node does not hold what was asked for.
    ResourceNonExistent,
    /// The node closed the operation without an outcome.
    OperationIncomplete(String),
    /// An error inside the client. This is definitive.
    Other(String),
}

/// The mathematical value of a [`ChainHeadError`].
pub enum ChainHeadErrorView {
    Inaccessible(Seq<char>),
    Error(Seq<char>),
    Disjoint,
    ResourceNonExistent,
    OperationIncomplete(Seq<char>),
    Other(Seq<char>),
}

impl View for ChainHeadError {
    type V = ChainHeadErrorView;

    open spec fn view(&self) -> ChainHeadErrorView {
        match self {
            ChainHeadError::Inaccessible(text) => ChainHeadErrorView::Inaccessible(text@),
            ChainHeadError::Error(text) => ChainHeadErrorView::Error(text@),
            ChainHeadError::Disjoint => ChainHeadErrorView::Disjoint,
            ChainHeadError::ResourceNonExistent => ChainHeadErrorView::ResourceNonExistent,
            ChainHeadError::OperationIncomplete(text) => ChainHeadErrorView::OperationIncomplete(text@),
            ChainHeadError::Other(text) => ChainHeadErrorView::Other(text@),
        }
    }
}

impl ChainHeadErrorView {
    /// The text shown for the error.
    pub open spec fn text(self) -> Seq<char> {
        match self {
            ChainHeadErrorView::Inaccessible(text) => "Inaccessible: "@ + text,
            ChainHeadErrorView::Error(text) => "Error: "@ + text,
            ChainHeadErrorView::Disjoint => "Disjoint"@,
            ChainHeadErrorView::ResourceNonExistent => "Resource does not exist on the RPC target node"@,
            ChainHeadErrorView::OperationIncomplete(text) => "Operation incomplete: "@ + text,
            ChainHeadErrorView::Other(text) => "Other: "@ + text,
        }
    }

    /// Whether asking again may succeed: only an inaccessible resource is
    /// advertised as such.
    pub open spec fn retryable(self) -> bool {
        self is Inaccessible
    }
}

impl ChainHeadError {
    /// The text shown for the error.
    pub fn message(&self) -> (text: String)
        ensures
            text@ == self@.text(),
    {
        match self {
            ChainHeadError::Inaccessible(text) => prefixed("Inaccessible: ", text.as_str()),
            ChainHeadError::Error(text) => prefixed("Error: ", text.as_str()),
            ChainHeadError::Disjoint => String::from_str("Disjoint"),
            ChainHeadError::ResourceNonExistent => String::from_str(
                "Resource does not exist on the RPC target node",
            ),
            ChainHeadError::OperationIncomplete(text) => prefixed("Operation incomplete: ", text.as_str()),
            ChainHeadError::Other(text) => prefixed("Other: ", text.as_str()),
        }
    }

    /// Whether asking again may succeed.
    pub fn is_retryable(&self) -> (retry: bool)
        ensures
            retry == self@.retryable(),
    {
        match self {
            ChainHeadError::Inaccessible(_) => true,
            _ => false,
        }
    }
}

/// A client error becomes the chain-head error that carries its text.
impl From<Error> for ChainHeadError {
    fn from(error: Error) -> (converted: ChainHeadError)
        ensures
            converted@ == ChainHeadErrorView::Other(error@.text()),
    {
        ChainHeadError::Other(error.message())
    }
}

impl FromSpecImpl<Error> for ChainHeadError {
    /// The conversion builds a new text, so its result is stated by view,
    /// in the `ensures` of `from`, and not as one fixed value.
    open spec fn obeys_from_spec() -> bool {
        false
    }

    open spec fn from_spec(error: Error) -> ChainHeadError {
        ChainHeadError::Other(arbitrary())
    }
}

/// The mathematical value of a result: that of what it holds, on either
/// side.
pub open spec fn outcome<T: View, E: View>(result: Result<T, E>) -> Result<T::V, E::V> {
    match result {
        Ok(value) => Ok(value@),
        Err(error) => Err(error@),
    }
}

/// The mathematical value of a result that holds a nested value, such as a
/// list of byte strings or a byte string that may be absent.
pub open spec fn deep_outcome<T: DeepView, E: View>(result: Result<T, E>) -> Result<T::V, E::V> {
    match result {
        Ok(value) => Ok(value.deep_view()),
        Err(error) => Err(error@),
    }
}

} // verus!
