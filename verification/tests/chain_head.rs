use chainhead_client::{
    Address, BlockRequest, CallRequest, ChainHeadBlock, ChainHeadError, ChainHeadEvent, ChainHeadResult, Error, ErrorEvent,
    EventDetails, EventRecord, Metadata, PalletMetadata, Phase, StorageEntryMetadata,
    StorageEntryType, StorageHasher, StorageMetadata, StorageRequest, SubscriptionHead,
};
use std::cell::Cell;

const HASH: [u8; 32] = [0x11; 32];

fn metadata() -> Metadata {
    let pallets = vec![PalletMetadata {
        name: "Balances".to_string(),
        index: 5,
        storage: Some(StorageMetadata {
            prefix: "Balances".to_string(),
            entries: vec![
                StorageEntryMetadata {
                    name: "TotalIssuance".to_string(),
                    entry_type: StorageEntryType::Plain(6),
                    hash: [3; 32],
                },
                StorageEntryMetadata {
                    name: "Account".to_string(),
                    entry_type: StorageEntryType::Mapping {
                        hashers: vec![StorageHasher::Identity],
                        key_ty: 0,
                        value_ty: 12,
                    },
                    hash: [4; 32],
                },
            ],
        }),
    }];
    Metadata::new(pallets).unwrap()
}

fn block() -> ChainHeadBlock {
    ChainHeadBlock::new(HASH, "sub-7".to_string(), metadata())
}

fn done(text: &str) -> ChainHeadEvent<String> {
    ChainHeadEvent::Done(ChainHeadResult { result: text.to_string() })
}

fn done_maybe(text: Option<&str>) -> ChainHeadEvent<Option<String>> {
    ChainHeadEvent::Done(ChainHeadResult { result: text.map(|t| t.to_string()) })
}

fn reason(text: &str) -> ErrorEvent {
    ErrorEvent { error: text.to_string() }
}

fn total_issuance(hash: Option<[u8; 32]>) -> Address {
    Address::new("Balances".to_string(), "TotalIssuance".to_string(), vec![], hash)
}

fn read_u32(bytes: &[u8], _ty: u32, _metadata: &Metadata) -> (Result<u32, String>, usize) {
    if bytes.len() < 4 {
        (Err("Not enough data to fill buffer".to_string()), bytes.len())
    } else {
        (Ok(u32::from_le_bytes([bytes[0], bytes[1], bytes[2], bytes[3]])), 4)
    }
}

#[test]
fn done_event_gives_its_bytes() {
    assert_eq!(Vec::<u8>::try_from(done("0x0102")), Ok(vec![1, 2]));
    assert_eq!(Vec::<u8>::try_from(done("0102")), Ok(vec![1, 2]));
    assert_eq!(Vec::<u8>::try_from(done("0x")), Ok(vec![]));
}

#[test]
fn done_event_with_malformed_hex_is_an_internal_error() {
    assert_eq!(
        Vec::<u8>::try_from(done("0x012")),
        Err(ChainHeadError::Other("Odd number of digits".to_string()))
    );
    assert_eq!(
        Vec::<u8>::try_from(done("0xzz")),
        Err(ChainHeadError::Other("Invalid character 'z' at position 0".to_string()))
    );
}

#[test]
fn other_events_map_to_their_error() {
    assert_eq!(
        Vec::<u8>::try_from(ChainHeadEvent::Inaccessible(reason("pruned"))),
        Err(ChainHeadError::Inaccessible("pruned".to_string()))
    );
    assert_eq!(
        Vec::<u8>::try_from(ChainHeadEvent::Error(reason("bad call"))),
        Err(ChainHeadError::Error("bad call".to_string()))
    );
    assert_eq!(Vec::<u8>::try_from(ChainHeadEvent::Disjoint), Err(ChainHeadError::Disjoint));
}

#[test]
fn optional_event_without_payload_is_no_value() {
    assert_eq!(Option::<Vec<u8>>::try_from(done_maybe(None)), Ok(None));
}

#[test]
fn optional_event_with_payload_gives_its_bytes() {
    assert_eq!(Option::<Vec<u8>>::try_from(done_maybe(Some("0x2a00"))), Ok(Some(vec![42, 0])));
    assert_eq!(Option::<Vec<u8>>::try_from(done_maybe(Some("0x"))), Ok(Some(vec![])));
}

#[test]
fn optional_event_failures() {
    assert_eq!(
        Option::<Vec<u8>>::try_from(done_maybe(Some("0x1"))),
        Err(ChainHeadError::Other("Odd number of digits".to_string()))
    );
    assert_eq!(
        Option::<Vec<u8>>::try_from(ChainHeadEvent::Inaccessible(reason("pruned"))),
        Err(ChainHeadError::Inaccessible("pruned".to_string()))
    );
    assert_eq!(
        Option::<Vec<u8>>::try_from(ChainHeadEvent::Error(reason("bad key"))),
        Err(ChainHeadError::Error("bad key".to_string()))
    );
    assert_eq!(Option::<Vec<u8>>::try_from(ChainHeadEvent::Disjoint), Err(ChainHeadError::Disjoint));
}

#[test]
fn block_keeps_its_hash() {
    assert_eq!(block().hash(), HASH);
    assert_eq!(block().metadata(), &metadata());
}

#[test]
fn requests_name_subscription_and_block() {
    let block = block();
    assert_eq!(block.body_request(), BlockRequest { subscription_id: "sub-7".to_string(), hash: HASH });
    assert_eq!(
        block.header_request(),
        BlockRequest { subscription_id: "sub-7".to_string(), hash: HASH }
    );
    assert_eq!(
        block.storage_raw_request(&[1, 2, 3]),
        StorageRequest {
            subscription_id: "sub-7".to_string(),
            hash: HASH,
            key: vec![1, 2, 3],
            child_key: None
        }
    );
    assert_eq!(block.unpin(), BlockRequest { subscription_id: "sub-7".to_string(), hash: HASH });
}

#[test]
fn call_request_sends_no_bytes_for_missing_parameters() {
    let block = block();
    assert_eq!(
        block.call_request("Core_version".to_string(), None),
        CallRequest {
            subscription_id: "sub-7".to_string(),
            hash: HASH,
            function: "Core_version".to_string(),
            call_parameters: vec![]
        }
    );
    assert_eq!(
        block.call_request("Metadata_metadata".to_string(), Some(&[0xde, 0xad])),
        CallRequest {
            subscription_id: "sub-7".to_string(),
            hash: HASH,
            function: "Metadata_metadata".to_string(),
            call_parameters: vec![0xde, 0xad]
        }
    );
}

#[test]
fn events_request_asks_for_the_event_log() {
    let key = hex::decode("26aa394eea5630e07c48ae0c9558cef780d41e5e16056765bc8461851072c9d7").unwrap();
    assert_eq!(
        block().events_request(),
        StorageRequest { subscription_id: "sub-7".to_string(), hash: HASH, key, child_key: None }
    );
}

#[test]
fn body_of_an_empty_list() {
    assert_eq!(block().body(SubscriptionHead::Event(done("0x00"))), Ok(vec![]));
}

#[test]
fn body_with_extrinsics() {
    assert_eq!(
        block().body(SubscriptionHead::Event(done("0x080801020403"))),
        Ok(vec![vec![1, 2], vec![3]])
    );
    assert_eq!(block().body(SubscriptionHead::Event(done("0x0400"))), Ok(vec![vec![]]));
}

#[test]
fn body_ignores_bytes_behind_the_list() {
    assert_eq!(block().body(SubscriptionHead::Event(done("0x00ffff"))), Ok(vec![]));
}

#[test]
fn body_that_the_codec_refuses() {
    match block().body(SubscriptionHead::Event(done("0x08"))) {
        Err(ChainHeadError::Other(text)) => assert!(text.starts_with("Scale codec error: "), "{}", text),
        other => panic!("unexpected {:?}", other),
    }
    match block().body(SubscriptionHead::Event(done("0x"))) {
        Err(ChainHeadError::Other(text)) => assert!(text.starts_with("Scale codec error: "), "{}", text),
        other => panic!("unexpected {:?}", other),
    }
}

#[test]
fn body_of_a_closed_stream_is_incomplete() {
    assert_eq!(
        block().body(SubscriptionHead::Closed),
        Err(ChainHeadError::OperationIncomplete("Failed to fetch the block body".to_string()))
    );
}

#[test]
fn body_of_a_refused_or_failed_stream() {
    assert_eq!(
        block().body(SubscriptionHead::Refused(Error::Rpc("no such method".to_string()))),
        Err(ChainHeadError::Other("Rpc error: no such method".to_string()))
    );
    assert_eq!(
        block().body(SubscriptionHead::Failed(Error::Rpc("bad json".to_string()))),
        Err(ChainHeadError::Other("Rpc error: bad json".to_string()))
    );
}

#[test]
fn body_of_each_failing_event() {
    assert_eq!(
        block().body(SubscriptionHead::Event(ChainHeadEvent::Inaccessible(reason("pruned")))),
        Err(ChainHeadError::Inaccessible("pruned".to_string()))
    );
    assert_eq!(
        block().body(SubscriptionHead::Event(ChainHeadEvent::Error(reason("broken")))),
        Err(ChainHeadError::Error("broken".to_string()))
    );
    assert_eq!(block().body(SubscriptionHead::Event(ChainHeadEvent::Disjoint)), Err(ChainHeadError::Disjoint));
    assert_eq!(
        block().body(SubscriptionHead::Event(done("0x0"))),
        Err(ChainHeadError::Other("Odd number of digits".to_string()))
    );
}

#[test]
fn header_is_decoded_from_its_bytes() {
    let header = block().header(Ok(Some("0x0a0b".to_string())), |bytes| Ok::<Vec<u8>, String>(bytes.to_vec()));
    assert_eq!(header, Ok(vec![0x0a, 0x0b]));
}

#[test]
fn header_that_the_node_does_not_have() {
    let called = Cell::new(false);
    let header = block().header(Ok(None), |_| {
        called.set(true);
        Ok::<u8, String>(0)
    });
    assert_eq!(header, Err(ChainHeadError::ResourceNonExistent));
    assert!(!called.get());
}

#[test]
fn header_failures() {
    let decode = |bytes: &[u8]| bytes.first().copied().ok_or("Not enough data".to_string());
    assert_eq!(
        block().header(Err(Error::Rpc("timeout".to_string())), decode),
        Err(ChainHeadError::Other("Rpc error: timeout".to_string()))
    );
    assert_eq!(
        block().header(Ok(Some("0xabc".to_string())), decode),
        Err(ChainHeadError::Other("Other error: Odd number of digits".to_string()))
    );
    assert_eq!(
        block().header(Ok(Some("0x".to_string())), decode),
        Err(ChainHeadError::Other("Scale codec error: Not enough data".to_string()))
    );
    assert_eq!(block().header(Ok(Some("0x07".to_string())), decode), Ok(7));
}

#[test]
fn raw_storage_outcomes() {
    let block = block();
    assert_eq!(block.storage_raw(SubscriptionHead::Event(done_maybe(Some("0x2a")))), Ok(Some(vec![42])));
    assert_eq!(block.storage_raw(SubscriptionHead::Event(done_maybe(None))), Ok(None));
    assert_eq!(
        block.storage_raw(SubscriptionHead::Closed),
        Err(ChainHeadError::OperationIncomplete("Failed to fetch the block storage".to_string()))
    );
    assert_eq!(block.storage_raw(SubscriptionHead::Event(ChainHeadEvent::Disjoint)), Err(ChainHeadError::Disjoint));
    assert_eq!(
        block.storage_raw(SubscriptionHead::Event(ChainHeadEvent::Inaccessible(reason("pruned")))),
        Err(ChainHeadError::Inaccessible("pruned".to_string()))
    );
    assert_eq!(
        block.storage_raw(SubscriptionHead::Refused(Error::Other("x".to_string()))),
        Err(ChainHeadError::Other("Other error: x".to_string()))
    );
}

#[test]
fn storage_request_asks_for_the_key_of_the_address() {
    let mut key = hex::decode("c2261276cc9d1f8598ea4b6a74b15c2f57c875e4cff74148e4628f264b974c80").unwrap();
    assert_eq!(
        block().storage_request(&total_issuance(Some([3; 32]))),
        Ok(StorageRequest {
            subscription_id: "sub-7".to_string(),
            hash: HASH,
            key: key.clone(),
            child_key: None
        })
    );
    assert_eq!(
        block().storage_request(&total_issuance(None)),
        Ok(StorageRequest {
            subscription_id: "sub-7".to_string(),
            hash: HASH,
            key: key.clone(),
            child_key: None
        })
    );
    let account = Address::new("Balances".to_string(), "Account".to_string(), vec![vec![7, 8]], None);
    let root = chainhead_client::storage::utils::storage_address_root_bytes(&account);
    key = [root, vec![7, 8]].concat();
    assert_eq!(
        block().storage_request(&account),
        Ok(StorageRequest { subscription_id: "sub-7".to_string(), hash: HASH, key, child_key: None })
    );
}

#[test]
fn storage_request_of_an_address_that_does_not_fit() {
    assert_eq!(
        block().storage_request(&total_issuance(Some([9; 32]))),
        Err(ChainHeadError::Other(
            "Metadata error: The generated code is not compatible with the node".to_string()
        ))
    );
    let unknown = Address::new("Staking".to_string(), "Validators".to_string(), vec![], None);
    assert_eq!(
        block().storage_request(&unknown),
        Err(ChainHeadError::Other("Metadata error: Pallet with name not found: Staking".to_string()))
    );
    let keyed = Address::new("Balances".to_string(), "TotalIssuance".to_string(), vec![vec![1]], None);
    assert_eq!(
        block().storage_request(&keyed),
        Err(ChainHeadError::Other(
            "Storage address error: Storage lookup was given the wrong number of keys".to_string()
        ))
    );
}

#[test]
fn typed_storage_decodes_against_the_value_type() {
    let value = block().storage(
        &total_issuance(Some([3; 32])),
        SubscriptionHead::Event(done_maybe(Some("0x2a000000"))),
        |bytes, ty, metadata| {
            assert_eq!(ty, 6);
            assert_eq!(metadata, &self::metadata());
            read_u32(bytes, ty, metadata)
        },
    );
    assert_eq!(value, Ok(Some(42)));
}

#[test]
fn typed_storage_ignores_bytes_left_over() {
    let value =
        block().storage(&total_issuance(None), SubscriptionHead::Event(done_maybe(Some("0x01000000ffff"))), read_u32);
    assert_eq!(value, Ok(Some(1)));
}

#[test]
fn typed_storage_without_a_value_is_none_and_decodes_nothing() {
    let called = Cell::new(false);
    let value = block().storage(&total_issuance(None), SubscriptionHead::Event(done_maybe(None)), |b, t, m| {
        called.set(true);
        read_u32(b, t, m)
    });
    assert_eq!(value, Ok(None));
    assert!(!called.get());
}

#[test]
fn typed_storage_propagates_disjoint_without_decoding() {
    let called = Cell::new(false);
    let value = block().storage(
        &total_issuance(Some([3; 32])),
        SubscriptionHead::Event(ChainHeadEvent::Disjoint),
        |b, t, m| {
            called.set(true);
            read_u32(b, t, m)
        },
    );
    assert_eq!(value, Err(ChainHeadError::Disjoint));
    assert!(!called.get());
}

#[test]
fn typed_storage_passes_on_the_other_failures() {
    assert_eq!(
        block().storage(
            &total_issuance(None),
            SubscriptionHead::Event(ChainHeadEvent::Inaccessible(reason("pruned"))),
            read_u32
        ),
        Err(ChainHeadError::Inaccessible("pruned".to_string()))
    );
    assert_eq!(
        block().storage(&total_issuance(None), SubscriptionHead::Closed, read_u32),
        Err(ChainHeadError::OperationIncomplete("Failed to fetch the block storage".to_string()))
    );
    assert_eq!(
        block().storage(&total_issuance(None), SubscriptionHead::Event(done_maybe(Some("0x2a"))), read_u32),
        Err(ChainHeadError::Other("Decode error: Not enough data to fill buffer".to_string()))
    );
}

#[test]
fn typed_storage_of_an_incompatible_address_fails_whatever_came_back() {
    let called = Cell::new(false);
    let value = block().storage(
        &total_issuance(Some([0; 32])),
        SubscriptionHead::Event(done_maybe(Some("0x2a000000"))),
        |b, t, m| {
            called.set(true);
            read_u32(b, t, m)
        },
    );
    assert_eq!(
        value,
        Err(ChainHeadError::Other(
            "Metadata error: The generated code is not compatible with the node".to_string()
        ))
    );
    assert!(!called.get());
}

#[test]
fn call_outcomes() {
    let block = block();
    assert_eq!(block.call(SubscriptionHead::Event(done("0xc0ffee"))), Ok(vec![0xc0, 0xff, 0xee]));
    assert_eq!(
        block.call(SubscriptionHead::Closed),
        Err(ChainHeadError::OperationIncomplete("Failed to execute the runtime API call".to_string()))
    );
    assert_eq!(
        block.call(SubscriptionHead::Event(ChainHeadEvent::Error(reason("trap")))),
        Err(ChainHeadError::Error("trap".to_string()))
    );
    assert_eq!(block.call(SubscriptionHead::Event(ChainHeadEvent::Disjoint)), Err(ChainHeadError::Disjoint));
    assert_eq!(
        block.call(SubscriptionHead::Failed(Error::Rpc("eof".to_string()))),
        Err(ChainHeadError::Other("Rpc error: eof".to_string()))
    );
}

fn decode_events(bytes: &[u8]) -> Vec<EventRecord> {
    bytes
        .iter()
        .enumerate()
        .map(|(i, b)| {
            Ok(EventDetails {
                phase: Phase::ApplyExtrinsic(*b as u32),
                index: i as u32,
                pallet_name: "System".to_string(),
                variant_name: "ExtrinsicSuccess".to_string(),
                field_bytes: vec![],
            })
        })
        .collect()
}

#[test]
fn events_are_built_over_the_stored_bytes() {
    let events = block().events(SubscriptionHead::Event(done_maybe(Some("0x0001"))), decode_events).unwrap();
    assert_eq!(events.block_hash(), HASH);
    assert_eq!(events.len(), 2);
    assert!(!events.is_empty());
    assert_eq!(events.iter()[1].as_ref().map(|e| e.phase()), Ok(Phase::ApplyExtrinsic(1)));
}

#[test]
fn events_that_are_not_stored_are_an_internal_error() {
    let called = Cell::new(false);
    let events = block().events(SubscriptionHead::Event(done_maybe(None)), |bytes| {
        called.set(true);
        decode_events(bytes)
    });
    assert_eq!(
        events,
        Err(ChainHeadError::Other("Failed to fetch System::Events storage".to_string()))
    );
    assert!(!called.get());
}

#[test]
fn events_pass_on_the_failure_of_the_fetch() {
    assert_eq!(
        block().events(SubscriptionHead::Event(ChainHeadEvent::Disjoint), decode_events),
        Err(ChainHeadError::Disjoint)
    );
    assert_eq!(
        block().events(SubscriptionHead::Closed, decode_events),
        Err(ChainHeadError::OperationIncomplete("Failed to fetch the block storage".to_string()))
    );
}
