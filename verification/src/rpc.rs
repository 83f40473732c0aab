//! What passes between the client and the node in a chain-head operation:
//! the request that opens it and the events that conclude it.
//!
//! An operation is idle until its request is sent, subscribed while the node
//! has not answered, and terminal with the first thing that comes back. Only
//! that first thing is looked at: the shape of the event says how the
//! operation ended, not the closing of the stream.

use crate::error::{outcome, ChainHeadError, ChainHeadErrorView, Error};
use crate::hexcode::{decode_payload, payload_bytes};
use vstd::prelude::*;
use vstd::std_specs::convert::TryFromSpecImpl;
use vstd::string::*;

verus! {

/// What a successful operation carries.
#[derive(Debug, PartialEq, Eq)]
pub struct ChainHeadResult<T> {
    /// The payload of the operation.
    pub result: T,
}

/// Why the node could not serve an operation.
#[derive(Debug, PartialEq, Eq)]
pub struct ErrorEvent {
    /// The node's reason.
    pub error: String,
}

/// The event that concludes an operation.
#[derive(Debug, PartialEq, Eq)]
pub enum ChainHeadEvent<T> {
    /// The operation succeeded, with this payload.
    Done(ChainHeadResult<T>),
    /// What was asked for cannot be reached now. The subscription stands and
    /// the caller may ask again.
    Inaccessible(ErrorEvent),
    /// The operation failed for good.
    Error(ErrorEvent),
    /// The node no longer knows the subscription.
    Disjoint,
}

/// What came of an operation's request, up to the first item of its stream.
#[derive(Debug, PartialEq, Eq)]
pub enum SubscriptionHead<T> {
    /// The node did not open the stream.
    Refused(Error),
    /// The stream closed before it yielded anything.
    Closed,
    /// The first item of the stream was a failure of the transport.
    Failed(Error),
    /// The first item of the stream.
    Event(ChainHeadEvent<T>),
}

/// A request that names a pinned block: the subscription that pinned it and
/// its hash. It asks for the body or the header of the block, or gives the
/// block up.
#[derive(Debug, PartialEq, Eq)]
pub struct BlockRequest {
    /// The subscription that pinned the block.
    pub subscription_id: String,
    /// The hash of the block.
    pub hash: [u8; 32],
}

/// A request for the value stored under a key at a pinned block.
#[derive(Debug, PartialEq, Eq)]
pub struct StorageRequest {
    /// The subscription that pinned the block.
    pub subscription_id: String,
    /// The hash of the block.
    pub hash: [u8; 32],
    /// The key to read.
    pub key: Vec<u8>,
    /// The key of the child trie to read in, if any.
    pub child_key: Option<Vec<u8>>,
}

/// A request for a runtime call at a pinned block.
#[derive(Debug, PartialEq, Eq)]
pub struct CallRequest {
    /// The subscription that pinned the block.
    pub subscription_id: String,
    /// The hash of the block.
    pub hash: [u8; 32],
    /// The name of the runtime function.
    pub function: String,
    /// The encoded parameters of the call.
    pub call_parameters: Vec<u8>,
}

/// The event that a stream began with, or the error of an operation whose
/// stream began with none: a failure of the transport is an internal error
/// with the failure's text, and a stream that closed before any event is an
/// incomplete operation, reported with the text `incomplete`.
pub open spec fn head_event<T>(head: SubscriptionHead<T>, incomplete: Seq<char>) -> Result<
    ChainHeadEvent<T>,
    ChainHeadErrorView,
> {
    match head {
        SubscriptionHead::Refused(error) => Err(ChainHeadErrorView::Other(error@.text())),
        SubscriptionHead::Closed => Err(ChainHeadErrorView::OperationIncomplete(incomplete)),
        SubscriptionHead::Failed(error) => Err(ChainHeadErrorView::Other(error@.text())),
        SubscriptionHead::Event(event) => Ok(event),
    }
}

/// Takes the first event of a stream, or fails as [`head_event`] says.
pub fn first_event<T>(head: SubscriptionHead<T>, incomplete: &str) -> (first: Result<ChainHeadEvent<T>, ChainHeadError>)
    ensures
        match head_event(head, incomplete@) {
            Ok(event) => first == Ok::<ChainHeadEvent<T>, ChainHeadError>(event),
            Err(e) => first matches Err(error) && error@ == e,
        },
{
    match head {
        SubscriptionHead::Refused(error) => Err(ChainHeadError::from(error)),
        SubscriptionHead::Closed => Err(ChainHeadError::OperationIncomplete(String::from_str(incomplete))),
        SubscriptionHead::Failed(error) => Err(ChainHeadError::from(error)),
        SubscriptionHead::Event(event) => Ok(event),
    }
}

/// The bytes of an event whose payload is hexadecimal text: the decoded
/// payload of a success, and for each other event the error of its kind. A
/// payload that is no hexadecimal text is an internal error that carries the
/// decoder's diagnostic.
pub open spec fn event_bytes(event: ChainHeadEvent<String>) -> Result<Seq<u8>, ChainHeadErrorView> {
    match event {
        ChainHeadEvent::Done(done) => match payload_bytes(done.result@) {
            Ok(bytes) => Ok(bytes),
            Err(diagnostic) => Err(ChainHeadErrorView::Other(diagnostic)),
        },
        ChainHeadEvent::Inaccessible(reason) => Err(ChainHeadErrorView::Inaccessible(reason.error@)),
        ChainHeadEvent::Error(reason) => Err(ChainHeadErrorView::Error(reason.error@)),
        ChainHeadEvent::Disjoint => Err(ChainHeadErrorView::Disjoint),
    }
}

/// The bytes of an event whose payload may be absent: a success without a
/// payload is no error but the absence of a value.
pub open spec fn event_optional_bytes(event: ChainHeadEvent<Option<String>>) -> Result<
    Option<Seq<u8>>,
    ChainHeadErrorView,
> {
    match event {
        ChainHeadEvent::Done(done) => match done.result {
            None => Ok(None),
            Some(text) => match payload_bytes(text@) {
                Ok(bytes) => Ok(Some(bytes)),
                Err(diagnostic) => Err(ChainHeadErrorView::Other(diagnostic)),
            },
        },
        ChainHeadEvent::Inaccessible(reason) => Err(ChainHeadErrorView::Inaccessible(reason.error@)),
        ChainHeadEvent::Error(reason) => Err(ChainHeadErrorView::Error(reason.error@)),
        ChainHeadEvent::Disjoint => Err(ChainHeadErrorView::Disjoint),
    }
}

/// The mathematical value of bytes that may be absent, or of the error in
/// their place.
pub open spec fn optional_outcome(result: Result<Option<Vec<u8>>, ChainHeadError>) -> Result<
    Option<Seq<u8>>,
    ChainHeadErrorView,
> {
    match result {
        Ok(Some(bytes)) => Ok(Some(bytes@)),
        Ok(None) => Ok(None),
        Err(error) => Err(error@),
    }
}

impl TryFrom<ChainHeadEvent<String>> for Vec<u8> {
    type Error = ChainHeadError;

    fn try_from(event: ChainHeadEvent<String>) -> (bytes: Result<Vec<u8>, ChainHeadError>)
        ensures
            outcome(bytes) == event_bytes(event),
    {
        match event {
            ChainHeadEvent::Done(ChainHeadResult { result }) => {
                match decode_payload(result.as_str()) {
                    Ok(bytes) => Ok(bytes),
                    Err(diagnostic) => Err(ChainHeadError::Other(diagnostic)),
                }
            },
            ChainHeadEvent::Inaccessible(err) => Err(ChainHeadError::Inaccessible(err.error)),
            ChainHeadEvent::Error(err) => Err(ChainHeadError::Error(err.error)),
            ChainHeadEvent::Disjoint => Err(ChainHeadError::Disjoint),
        }
    }
}

impl TryFromSpecImpl<ChainHeadEvent<String>> for Vec<u8> {
    /// The bytes are a new value, so the conversion is stated by view, in
    /// the `ensures` of `try_from`.
    open spec fn obeys_try_from_spec() -> bool {
        false
    }

    open spec fn try_from_spec(event: ChainHeadEvent<String>) -> Result<Vec<u8>, ChainHeadError> {
        Err(ChainHeadError::Disjoint)
    }
}

impl TryFrom<ChainHeadEvent<Option<String>>> for Option<Vec<u8>> {
    type Error = ChainHeadError;

    fn try_from(event: ChainHeadEvent<Option<String>>) -> (bytes: Result<Option<Vec<u8>>, ChainHeadError>)
        ensures
            optional_outcome(bytes) == event_optional_bytes(event),
    {
        match event {
            ChainHeadEvent::Done(ChainHeadResult { result }) => {
                let result = match result {
                    Some(result) => result,
                    None => {
                        return Ok(None);
                    },
                };
                match Vec::<u8>::try_from(ChainHeadEvent::Done(ChainHeadResult { result })) {
                    Ok(bytes) => Ok(Some(bytes)),
                    Err(error) => Err(error),
                }
            },
            ChainHeadEvent::Inaccessible(err) => Err(ChainHeadError::Inaccessible(err.error)),
            ChainHeadEvent::Error(err) => Err(ChainHeadError::Error(err.error)),
            ChainHeadEvent::Disjoint => Err(ChainHeadError::Disjoint),
        }
    }
}

impl TryFromSpecImpl<ChainHeadEvent<Option<String>>> for Option<Vec<u8>> {
    /// The bytes are a new value, so the conversion is stated by view, in
    /// the `ensures` of `try_from`.
    open spec fn obeys_try_from_spec() -> bool {
        false
    }

    open spec fn try_from_spec(event: ChainHeadEvent<Option<String>>) -> Result<Option<Vec<u8>>, ChainHeadError> {
        Err(ChainHeadError::Disjoint)
    }
}

} // verus!
