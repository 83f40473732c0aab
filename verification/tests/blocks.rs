use chainhead_client::{
    cache_events, get_events, Block, BlockError, ChainBlock, ChainBlockResponse, Error, EventDetails, EventRecord,
    Events, EventsStep, ExtrinsicEvents, Header, Phase,
};
use futures::executor::block_on;
use std::cell::Cell;
use std::sync::Arc;

const BLOCK: [u8; 32] = [0x22; 32];

fn header() -> Header {
    Header { hash: BLOCK, number: 1_000_001, parent_hash: [0x21; 32] }
}

fn response(extrinsics: Vec<Vec<u8>>) -> ChainBlockResponse {
    ChainBlockResponse { block: ChainBlock { header: header(), extrinsics } }
}

fn event(phase: Phase, index: u32, pallet: &str, variant: &str, fields: &[u8]) -> EventRecord {
    Ok(EventDetails {
        phase,
        index,
        pallet_name: pallet.to_string(),
        variant_name: variant.to_string(),
        field_bytes: fields.to_vec(),
    })
}

fn records() -> Vec<EventRecord> {
    vec![
        event(Phase::Initialization, 0, "System", "NewAccount", &[1]),
        event(Phase::ApplyExtrinsic(0), 1, "Timestamp", "Set", &[2]),
        event(Phase::ApplyExtrinsic(0), 2, "System", "ExtrinsicSuccess", &[3]),
        event(Phase::ApplyExtrinsic(1), 3, "Balances", "Transfer", &[4, 4]),
        Err(Error::Decode("unknown variant".to_string())),
        event(Phase::ApplyExtrinsic(1), 5, "Balances", "Transfer", &[6]),
        event(Phase::ApplyExtrinsic(1), 6, "System", "ExtrinsicSuccess", &[7]),
        event(Phase::ApplyExtrinsic(2), 7, "System", "ExtrinsicFailed", &[8]),
        event(Phase::Finalization, 8, "Balances", "Transfer", &[9]),
    ]
}

fn events() -> Events {
    Events::new(BLOCK, records())
}

fn own(idx: u32) -> ExtrinsicEvents {
    ExtrinsicEvents::new([idx as u8; 32], idx, events())
}

fn indices(own: &ExtrinsicEvents) -> Vec<Option<u32>> {
    own.iter().into_iter().map(|record| record.as_ref().ok().map(|e| e.index())).collect()
}

fn first_byte(fields: &[u8]) -> Result<u8, String> {
    fields.first().copied().ok_or("no fields".to_string())
}

fn two_bytes(fields: &[u8]) -> Result<(u8, u8), String> {
    if fields.len() == 2 {
        Ok((fields[0], fields[1]))
    } else {
        Err("wrong length".to_string())
    }
}

#[test]
fn block_shows_its_header() {
    let block = Block::new(header());
    assert_eq!(block.hash(), BLOCK);
    assert_eq!(block.number(), 1_000_001);
    assert_eq!(block.header(), &header());
    assert_eq!(block.header().parent_hash, [0x21; 32]);
}

#[test]
fn body_of_a_block_that_the_node_lacks() {
    let block = Block::new(header());
    match block.body(None) {
        Err(Error::Block(BlockError::NotFound(hash))) => assert_eq!(hash, format!("0x{}", "22".repeat(32))),
        other => panic!("unexpected {:?}", other),
    }
}

#[test]
fn extrinsics_come_in_order_with_their_index() {
    let block = Block::new(header());
    let body = block.body(Some(response(vec![vec![0xa0], vec![], vec![0xc0, 0xc1]]))).unwrap();
    let extrinsics = body.extrinsics();
    assert_eq!(extrinsics.len(), 3);
    for (position, extrinsic) in extrinsics.iter().enumerate() {
        assert_eq!(extrinsic.index() as usize, position);
        assert_eq!(extrinsic.block_hash(), BLOCK);
    }
    assert_eq!(extrinsics[0].bytes(), &[0xa0]);
    assert_eq!(extrinsics[1].bytes(), &[] as &[u8]);
    assert_eq!(extrinsics[2].bytes(), &[0xc0, 0xc1]);
}

#[test]
fn extrinsics_can_be_listed_again() {
    let block = Block::new(header());
    let body = block.body(Some(response(vec![vec![1], vec![2]]))).unwrap();
    let first: Vec<(u32, Vec<u8>)> = body.extrinsics().iter().map(|e| (e.index(), e.bytes().to_vec())).collect();
    let second: Vec<(u32, Vec<u8>)> = body.extrinsics().iter().map(|e| (e.index(), e.bytes().to_vec())).collect();
    assert_eq!(first, vec![(0, vec![1]), (1, vec![2])]);
    assert_eq!(first, second);
}

#[test]
fn body_without_extrinsics() {
    let block = Block::new(header());
    let body = block.body(Some(response(vec![]))).unwrap();
    assert!(body.extrinsics().is_empty());
}

#[test]
fn block_body_and_extrinsics_share_one_cell() {
    let block = Block::new(header());
    let body = block.body(Some(response(vec![vec![1], vec![2]]))).unwrap();
    let extrinsics = body.extrinsics();
    assert!(Arc::ptr_eq(block.cached_events(), extrinsics[0].cached_events()));
    assert!(Arc::ptr_eq(block.cached_events(), extrinsics[1].cached_events()));
    let other = Block::new(header());
    assert!(!Arc::ptr_eq(block.cached_events(), other.cached_events()));
}

#[test]
fn empty_cell_asks_for_a_fetch() {
    assert_eq!(get_events(BLOCK, &None), EventsStep::Fetch(BLOCK));
    let block = Block::new(header());
    assert_eq!(block.events(&None), EventsStep::Fetch(BLOCK));
}

#[test]
fn filled_cell_returns_its_events() {
    let cell = Some(events());
    assert_eq!(get_events(BLOCK, &cell), EventsStep::Cached(events()));
    assert_eq!(get_events([0; 32], &cell), EventsStep::Cached(events()));
    assert_eq!(Block::new(header()).events(&cell), EventsStep::Cached(events()));
}

#[test]
fn fetched_events_are_stored_and_returned() {
    let mut cell = None;
    assert_eq!(cache_events(&mut cell, Ok(events())), Ok(events()));
    assert_eq!(cell, Some(events()));
}

#[test]
fn failed_fetch_leaves_the_cell() {
    let mut cell = None;
    assert_eq!(cache_events(&mut cell, Err(Error::Rpc("down".to_string()))), Err(Error::Rpc("down".to_string())));
    assert_eq!(cell, None);
    assert_eq!(get_events(BLOCK, &cell), EventsStep::Fetch(BLOCK));
    let mut filled = Some(events());
    assert!(cache_events(&mut filled, Err(Error::Rpc("down".to_string()))).is_err());
    assert_eq!(filled, Some(events()));
}

fn read_through(cell: &futures::lock::Mutex<Option<Events>>, hash: [u8; 32], fetches: &Cell<u32>) -> Result<Events, Error> {
    let mut guard = block_on(cell.lock());
    match get_events(hash, &guard) {
        EventsStep::Cached(events) => Ok(events),
        EventsStep::Fetch(asked) => {
            assert_eq!(asked, hash);
            fetches.set(fetches.get() + 1);
            cache_events(&mut guard, Ok(events()))
        }
    }
}

#[test]
fn many_readers_fetch_once() {
    let block = Block::new(header());
    let fetches = Cell::new(0);
    for _ in 0..5 {
        assert_eq!(read_through(block.cached_events(), block.hash(), &fetches), Ok(events()));
    }
    assert_eq!(fetches.get(), 1);
}

#[test]
fn readers_after_a_failed_fetch_fetch_again() {
    let block = Block::new(header());
    {
        let mut guard = block_on(block.cached_events().lock());
        assert_eq!(get_events(block.hash(), &guard), EventsStep::Fetch(BLOCK));
        assert!(cache_events(&mut guard, Err(Error::Rpc("down".to_string()))).is_err());
    }
    let fetches = Cell::new(0);
    assert_eq!(read_through(block.cached_events(), block.hash(), &fetches), Ok(events()));
    assert_eq!(read_through(block.cached_events(), block.hash(), &fetches), Ok(events()));
    assert_eq!(fetches.get(), 1);
}

#[test]
fn two_extrinsics_share_the_fetched_events() {
    let block = Block::new(header());
    let body = block.body(Some(response(vec![vec![0xa0], vec![0xb0]]))).unwrap();
    let extrinsics = body.extrinsics();
    let fetches = Cell::new(0);

    let all = read_through(extrinsics[0].cached_events(), extrinsics[0].block_hash(), &fetches);
    let first = extrinsics[0].events([0xe0; 32], all).unwrap();
    assert_eq!(fetches.get(), 1);

    let all = read_through(extrinsics[1].cached_events(), extrinsics[1].block_hash(), &fetches);
    let second = extrinsics[1].events([0xe1; 32], all).unwrap();
    assert_eq!(fetches.get(), 1);

    assert_eq!(first.all_events_in_block(), second.all_events_in_block());
    assert_eq!(first.extrinsic_hash(), [0xe0; 32]);
    assert_eq!(second.extrinsic_hash(), [0xe1; 32]);
    assert_eq!(first.extrinsic_index(), 0);
    assert_eq!(second.extrinsic_index(), 1);
    assert_eq!(indices(&first), vec![Some(1), Some(2), None]);
    assert_eq!(indices(&second), vec![Some(3), None, Some(5), Some(6)]);

    let block_events = read_through(block.cached_events(), block.hash(), &fetches);
    assert_eq!(block_events.as_ref(), Ok(first.all_events_in_block()));
    assert_eq!(fetches.get(), 1);
}

#[test]
fn extrinsic_events_of_a_failed_fetch() {
    let block = Block::new(header());
    let body = block.body(Some(response(vec![vec![0xa0]]))).unwrap();
    let extrinsics = body.extrinsics();
    let failed = extrinsics[0].events([0; 32], Err(Error::Rpc("down".to_string())));
    assert_eq!(failed.err(), Some(Error::Rpc("down".to_string())));
}

#[test]
fn extrinsic_events_show_their_parts() {
    let own = own(1);
    assert_eq!(own.block_hash(), BLOCK);
    assert_eq!(own.extrinsic_index(), 1);
    assert_eq!(own.extrinsic_hash(), [1; 32]);
    assert_eq!(own.all_events_in_block(), &events());
    assert_eq!(own.all_events_in_block().len(), 9);
}

#[test]
fn iter_keeps_the_events_of_the_extrinsic_and_the_errors() {
    assert_eq!(indices(&own(0)), vec![Some(1), Some(2), None]);
    assert_eq!(indices(&own(1)), vec![Some(3), None, Some(5), Some(6)]);
    assert_eq!(indices(&own(2)), vec![None, Some(7)]);
    assert_eq!(indices(&own(3)), vec![None]);
    let kept = own(3);
    let kept = kept.iter();
    assert_eq!(kept[0], &Err(Error::Decode("unknown variant".to_string())));
}

#[test]
fn iter_can_be_run_again() {
    let own = own(1);
    assert_eq!(indices(&own), indices(&own));
    assert_eq!(own.iter().len(), 4);
}

#[test]
fn iter_over_no_events() {
    let own = ExtrinsicEvents::new([0; 32], 0, Events::new(BLOCK, vec![]));
    assert!(own.iter().is_empty());
    assert!(own.all_events_in_block().is_empty());
}

#[test]
fn each_event_belongs_to_one_extrinsic() {
    let all = records();
    let subsets: Vec<Vec<Option<u32>>> = (0..4).map(|idx| indices(&own(idx))).collect();
    for (position, record) in all.iter().enumerate() {
        let holders = subsets.iter().filter(|subset| match record {
            Ok(event) => subset.contains(&Some(event.index())),
            Err(_) => subset.contains(&None),
        });
        match record {
            Ok(event) => match event.phase() {
                Phase::ApplyExtrinsic(_) => assert_eq!(holders.count(), 1, "event {}", position),
                _ => assert_eq!(holders.count(), 0, "event {}", position),
            },
            Err(_) => assert_eq!(holders.count(), 4, "event {}", position),
        }
    }
}

#[test]
fn find_decodes_the_named_events_and_keeps_errors() {
    let found = own(1).find("Balances", "Transfer", first_byte);
    assert_eq!(found, vec![Ok(4), Err(Error::Decode("unknown variant".to_string())), Ok(6)]);
}

#[test]
fn find_reports_fields_that_do_not_decode() {
    let found = own(1).find("Balances", "Transfer", two_bytes);
    assert_eq!(
        found,
        vec![
            Ok((4, 4)),
            Err(Error::Decode("unknown variant".to_string())),
            Err(Error::Codec("wrong length".to_string()))
        ]
    );
}

#[test]
fn find_skips_events_of_other_extrinsics_and_names() {
    assert_eq!(own(0).find("Balances", "Transfer", first_byte), vec![Err(Error::Decode("unknown variant".to_string()))]);
    assert_eq!(own(1).find("balances", "Transfer", first_byte), vec![Err(Error::Decode("unknown variant".to_string()))]);
    assert_eq!(own(1).find("Balances", "Set", first_byte), vec![Err(Error::Decode("unknown variant".to_string()))]);
    assert_eq!(own(0).find("Timestamp", "Set", first_byte), vec![Ok(2), Err(Error::Decode("unknown variant".to_string()))]);
}

#[test]
fn find_first_takes_the_first_match() {
    assert_eq!(own(1).find_first("Balances", "Transfer", first_byte), Ok(Some(4)));
    assert_eq!(own(0).find_first("System", "ExtrinsicSuccess", first_byte), Ok(Some(3)));
}

#[test]
fn find_first_does_not_decode_behind_the_first() {
    let calls = Cell::new(0);
    let first = own(1).find_first("Balances", "Transfer", |fields: &[u8]| {
        calls.set(calls.get() + 1);
        first_byte(fields)
    });
    assert_eq!(first, Ok(Some(4)));
    assert_eq!(calls.get(), 1);
}

#[test]
fn find_first_stops_at_an_error_that_comes_first() {
    assert_eq!(
        own(1).find_first("System", "ExtrinsicSuccess", first_byte),
        Err(Error::Decode("unknown variant".to_string()))
    );
    assert_eq!(own(2).find_first("System", "ExtrinsicFailed", first_byte), Err(Error::Decode("unknown variant".to_string())));
}

#[test]
fn find_first_reports_fields_that_do_not_decode() {
    let list = Events::new(BLOCK, vec![event(Phase::ApplyExtrinsic(0), 0, "Balances", "Transfer", &[1])]);
    let own = ExtrinsicEvents::new([0; 32], 0, list);
    assert_eq!(own.find_first("Balances", "Transfer", two_bytes), Err(Error::Codec("wrong length".to_string())));
    assert_eq!(own.has("Balances", "Transfer", two_bytes), Err(Error::Codec("wrong length".to_string())));
}

#[test]
fn find_first_without_a_match() {
    let list = Events::new(
        BLOCK,
        vec![
            event(Phase::ApplyExtrinsic(0), 0, "Balances", "Transfer", &[1]),
            event(Phase::ApplyExtrinsic(1), 1, "Balances", "Deposit", &[2]),
        ],
    );
    let own = ExtrinsicEvents::new([0; 32], 1, list);
    assert_eq!(own.find_first("Balances", "Transfer", first_byte), Ok(None));
    assert_eq!(own.has("Balances", "Transfer", first_byte), Ok(false));
    assert_eq!(own.has("Balances", "Deposit", first_byte), Ok(true));
    assert!(own.find("Balances", "Transfer", first_byte).is_empty());
}

#[test]
fn has_tells_whether_the_event_is_there() {
    assert_eq!(own(1).has("Balances", "Transfer", first_byte), Ok(true));
    assert_eq!(own(0).has("Timestamp", "Set", first_byte), Ok(true));
    assert_eq!(own(0).has("Balances", "Transfer", first_byte), Err(Error::Decode("unknown variant".to_string())));
}

#[test]
fn cloned_events_are_the_same_list() {
    let events = events();
    let copy = events.clone();
    assert_eq!(copy, events);
    assert_eq!(copy.block_hash(), BLOCK);
    assert!(std::ptr::eq(events.iter().as_ptr(), copy.iter().as_ptr()));
}

#[test]
fn event_details_show_their_parts() {
    let list = events();
    let event = list.iter()[3].as_ref().unwrap();
    assert_eq!(event.phase(), Phase::ApplyExtrinsic(1));
    assert_eq!(event.index(), 3);
    assert_eq!(event.pallet_name(), "Balances");
    assert_eq!(event.variant_name(), "Transfer");
    assert_eq!(event.field_bytes(), &[4, 4]);
}
