use std::collections::BTreeMap;

use splinterdb_rs::data_config::{
    bytewise_key_comp, key_comp_trampoline, merge_final_trampoline, merge_trampoline, DefaultSdb, KeyOrder,
    SdbRustDataFuncs,
};
use splinterdb_rs::database::{DBConfig, SplinterDBWithColumnFamilies};
use splinterdb_rs::engine::{EngineCall, EngineReply};
use splinterdb_rs::family::SplinterColumnFamily;
use splinterdb_rs::iterator::{NextStep, RangeIterator};
use splinterdb_rs::lookup::{LookupProtocol, LookupResult, LookupStep};
use splinterdb_rs::slice::{copy_bytes, create_splinter_slice, null_slice, start_slice, Slice};
use splinterdb_rs::status::{as_result, SplinterError};

/// An engine in memory: one family ordered by its keys' bytes, whose
/// merge appends the delta to the stored value. It records every call.
struct FakeEngine {
    records: BTreeMap<Vec<u8>, Vec<u8>>,
    looked_up: Option<Vec<u8>>,
    cursors: Vec<(Vec<(Vec<u8>, Vec<u8>)>, usize)>,
    log: Vec<String>,
    lookup_status: i32,
    value_status: i32,
    cursor_status: i32,
}

fn bytes(s: &Slice) -> Vec<u8> {
    match s.data {
        Some(d) => d.to_vec(),
        None => Vec::new(),
    }
}

/// Bytes that stay where they are, as the engine's buffers do for the
/// time of a walk.
fn engine_owned(bytes: &[u8]) -> &'static [u8] {
    Box::leak(bytes.to_vec().into_boxed_slice())
}

fn shown(call: EngineCall) -> String {
    format!("{:?}", call)
}

impl FakeEngine {
    fn new() -> FakeEngine {
        FakeEngine {
            records: BTreeMap::new(),
            looked_up: None,
            cursors: Vec::new(),
            log: Vec::new(),
            lookup_status: 0,
            value_status: 0,
            cursor_status: 0,
        }
    }

    fn perform(&mut self, call: EngineCall) -> EngineReply<'static> {
        self.log.push(shown(call));
        match call {
            EngineCall::Create { .. } | EngineCall::Open { .. } => EngineReply::Status { status: 0 },
            EngineCall::FamilyCreate { .. } => EngineReply::Handle { status: 0, handle: 7 },
            EngineCall::Insert { key, value, .. } => {
                self.records.insert(bytes(&key), bytes(&value));
                EngineReply::Status { status: 0 }
            }
            EngineCall::Update { key, delta, .. } => {
                let mut merged = self.records.get(&bytes(&key)).cloned().unwrap_or_default();
                merged.extend_from_slice(&bytes(&delta));
                self.records.insert(bytes(&key), merged);
                EngineReply::Status { status: 0 }
            }
            EngineCall::Delete { key, .. } => {
                self.records.remove(&bytes(&key));
                EngineReply::Status { status: 0 }
            }
            EngineCall::LookupResultInit { .. } => {
                self.looked_up = None;
                EngineReply::Nothing
            }
            EngineCall::Lookup { key, .. } => {
                self.looked_up = self.records.get(&bytes(&key)).cloned();
                EngineReply::Status { status: self.lookup_status }
            }
            EngineCall::LookupFound => EngineReply::Flag { flag: self.looked_up.is_some() },
            EngineCall::LookupResultValue => EngineReply::Value {
                status: self.value_status,
                data: engine_owned(&self.looked_up.clone().unwrap_or_default()),
            },
            EngineCall::IteratorInit { start, .. } => {
                let from = bytes(&start);
                let items: Vec<(Vec<u8>, Vec<u8>)> = self
                    .records
                    .iter()
                    .filter(|(k, _)| **k >= from)
                    .map(|(k, v)| (k.clone(), v.clone()))
                    .collect();
                self.cursors.push((items, 0));
                EngineReply::Handle { status: 0, handle: (self.cursors.len() - 1) as u64 }
            }
            EngineCall::IteratorNext { cursor } => {
                self.cursors[cursor as usize].1 += 1;
                EngineReply::Nothing
            }
            EngineCall::IteratorValid { cursor } => {
                let (items, pos) = &self.cursors[cursor as usize];
                EngineReply::Flag { flag: *pos < items.len() && self.cursor_status == 0 }
            }
            EngineCall::IteratorGetCurrent { cursor } => {
                let (items, pos) = &self.cursors[cursor as usize];
                EngineReply::Record { key: engine_owned(&items[*pos].0), value: engine_owned(&items[*pos].1) }
            }
            EngineCall::IteratorStatus { .. } => EngineReply::Status { status: self.cursor_status },
            _ => EngineReply::Nothing,
        }
    }

    fn count(&self, kind: &str) -> usize {
        self.log.iter().filter(|c| c.starts_with(kind)).count()
    }
}

fn open_family(engine: &mut FakeEngine, max_key_size: u64) -> SplinterColumnFamily {
    let mut db = SplinterDBWithColumnFamilies::new();
    let cfg = DBConfig { cache_size_bytes: 1 << 20, disk_size_bytes: 1 << 24, max_key_size: 24 };
    let call = db.db_create(b"/tmp/db", &cfg).unwrap();
    match engine.perform(call) {
        EngineReply::Status { status } => db.db_opened(status).unwrap(),
        other => panic!("unexpected answer {:?}", other),
    }
    let call = db.column_family_create::<DefaultSdb>(max_key_size).unwrap();
    match engine.perform(call) {
        EngineReply::Handle { handle, .. } => db.column_family_attach(max_key_size, handle).unwrap(),
        other => panic!("unexpected answer {:?}", other),
    }
}

fn status_of(reply: EngineReply) -> i32 {
    match reply {
        EngineReply::Status { status } => status,
        other => panic!("unexpected answer {:?}", other),
    }
}

fn insert(engine: &mut FakeEngine, cf: &SplinterColumnFamily, key: &[u8], value: &[u8]) -> Result<(), SplinterError> {
    let call = cf.insert(key, value)?;
    as_result(status_of(engine.perform(call)))
}

fn run_lookup(engine: &mut FakeEngine, mut lookup: LookupProtocol) -> Result<LookupResult, SplinterError> {
    let mut reply: EngineReply<'static> = EngineReply::Nothing;
    loop {
        match lookup.step(reply) {
            LookupStep::Call(call) => reply = engine.perform(call),
            LookupStep::Done(outcome) => return outcome,
        }
    }
}

fn open_range<'a>(
    engine: &mut FakeEngine,
    cf: &'a SplinterColumnFamily,
    start: Option<&[u8]>,
) -> RangeIterator<'a> {
    match engine.perform(cf.range(start)) {
        EngineReply::Handle { status, handle } => cf.range_opened(status, handle).unwrap(),
        other => panic!("unexpected answer {:?}", other),
    }
}

fn advance(engine: &mut FakeEngine, it: &mut RangeIterator) -> Result<bool, SplinterError> {
    let mut reply: EngineReply<'static> = EngineReply::Nothing;
    loop {
        match it.next(reply) {
            NextStep::Call(call) => reply = engine.perform(call),
            NextStep::Done(report) => return report,
        }
    }
}

fn collect_keys(engine: &mut FakeEngine, it: &mut RangeIterator) -> Vec<Vec<u8>> {
    let mut keys = Vec::new();
    while advance(engine, it).unwrap() {
        keys.push(it.current().unwrap().key().to_vec());
    }
    keys
}

#[test]
fn status_zero_is_success() {
    assert_eq!(as_result(0), Ok(()));
}

#[test]
fn nonzero_status_carries_its_code() {
    assert_eq!(as_result(5), Err(SplinterError::Engine { code: 5 }));
    assert_eq!(as_result(-1), Err(SplinterError::Engine { code: -1 }));
    assert_eq!(as_result(i32::MIN), Err(SplinterError::Engine { code: i32::MIN }));
}

#[test]
fn slice_counts_its_bytes() {
    let s = create_splinter_slice(b"abc");
    assert_eq!(s.length, 3);
    assert_eq!(s.data, Some(&b"abc"[..]));
    assert!(!s.is_null());
    assert_eq!(s.to_vec(), b"abc".to_vec());
    let empty = create_splinter_slice(b"");
    assert_eq!(empty.length, 0);
    assert_eq!(empty.data, Some(&b""[..]));
    assert!(!empty.is_null());
}

#[test]
fn null_slice_has_no_bytes() {
    let s = null_slice();
    assert_eq!(s.length, 0);
    assert_eq!(s.data, None);
    assert!(s.is_null());
    assert_eq!(s.to_vec(), Vec::<u8>::new());
}

#[test]
fn start_slice_is_null_without_a_key() {
    assert_eq!(start_slice(None), null_slice());
    assert_eq!(start_slice(Some(b"k2")), create_splinter_slice(b"k2"));
}

#[test]
fn copy_bytes_copies_exactly() {
    assert_eq!(copy_bytes(&[1, 2, 3, 255]), vec![1, 2, 3, 255]);
    assert_eq!(copy_bytes(&[]), Vec::<u8>::new());
}

#[test]
fn insert_then_lookup_finds_the_value() {
    let mut engine = FakeEngine::new();
    let cf = open_family(&mut engine, 24);
    insert(&mut engine, &cf, b"key", b"value \x00\xff bytes").unwrap();
    let found = run_lookup(&mut engine, cf.lookup(b"key"));
    assert_eq!(found, Ok(LookupResult::Found(b"value \x00\xff bytes".to_vec())));
}

#[test]
fn insert_overwrites() {
    let mut engine = FakeEngine::new();
    let cf = open_family(&mut engine, 24);
    insert(&mut engine, &cf, b"key", b"one").unwrap();
    insert(&mut engine, &cf, b"key", b"two").unwrap();
    assert_eq!(run_lookup(&mut engine, cf.lookup(b"key")), Ok(LookupResult::Found(b"two".to_vec())));
}

#[test]
fn lookup_of_absent_key_is_not_found() {
    let mut engine = FakeEngine::new();
    let cf = open_family(&mut engine, 24);
    assert_eq!(run_lookup(&mut engine, cf.lookup(b"nothing")), Ok(LookupResult::NotFound));
    assert_eq!(engine.count("LookupResultValue"), 0);
}

#[test]
fn delete_then_lookup_is_not_found() {
    let mut engine = FakeEngine::new();
    let cf = open_family(&mut engine, 24);
    insert(&mut engine, &cf, b"key", b"value").unwrap();
    assert_eq!(as_result(status_of(engine.perform(cf.delete(b"key")))), Ok(()));
    assert_eq!(run_lookup(&mut engine, cf.lookup(b"key")), Ok(LookupResult::NotFound));
}

#[test]
fn delete_of_absent_key_succeeds() {
    let mut engine = FakeEngine::new();
    let cf = open_family(&mut engine, 24);
    let call = cf.delete(b"absent");
    assert_eq!(call, EngineCall::Delete { family: 7, key: create_splinter_slice(b"absent") });
    assert_eq!(as_result(status_of(engine.perform(call))), Ok(()));
}

#[test]
fn update_is_the_same_on_two_instances() {
    let mut finals = Vec::new();
    for _ in 0..2 {
        let mut engine = FakeEngine::new();
        let cf = open_family(&mut engine, 24);
        insert(&mut engine, &cf, b"counter", b"ab").unwrap();
        assert_eq!(as_result(status_of(engine.perform(cf.update(b"counter", b"cd")))), Ok(()));
        assert_eq!(as_result(status_of(engine.perform(cf.update(b"counter", b"cd")))), Ok(()));
        finals.push(run_lookup(&mut engine, cf.lookup(b"counter")));
    }
    assert_eq!(finals[0], finals[1]);
    assert_eq!(finals[0], Ok(LookupResult::Found(b"abcdcd".to_vec())));
}

#[test]
fn update_hands_the_delta_on_unchanged() {
    let mut engine = FakeEngine::new();
    let cf = open_family(&mut engine, 4);
    assert_eq!(
        cf.update(b"k", b"\x01\x02"),
        EngineCall::Update {
            family: 7,
            key: Slice { length: 1, data: Some(&b"k"[..]) },
            delta: Slice { length: 2, data: Some(&[1, 2][..]) },
        }
    );
}

#[test]
fn range_yields_keys_in_order() {
    let mut engine = FakeEngine::new();
    let cf = open_family(&mut engine, 24);
    insert(&mut engine, &cf, b"k2", b"v2").unwrap();
    insert(&mut engine, &cf, b"k3", b"v3").unwrap();
    insert(&mut engine, &cf, b"k1", b"v1").unwrap();
    let mut it = open_range(&mut engine, &cf, None);
    assert_eq!(collect_keys(&mut engine, &mut it), vec![b"k1".to_vec(), b"k2".to_vec(), b"k3".to_vec()]);
    engine.perform(it.close());
}

#[test]
fn range_from_start_key_is_inclusive() {
    let mut engine = FakeEngine::new();
    let cf = open_family(&mut engine, 24);
    insert(&mut engine, &cf, b"k1", b"v1").unwrap();
    insert(&mut engine, &cf, b"k2", b"v2").unwrap();
    insert(&mut engine, &cf, b"k3", b"v3").unwrap();
    let mut it = open_range(&mut engine, &cf, Some(b"k2"));
    assert_eq!(collect_keys(&mut engine, &mut it), vec![b"k2".to_vec(), b"k3".to_vec()]);
    engine.perform(it.close());
}

#[test]
fn range_call_carries_the_start() {
    let mut engine = FakeEngine::new();
    let cf = open_family(&mut engine, 24);
    assert_eq!(cf.range(None), EngineCall::IteratorInit { family: 7, start: Slice { length: 0, data: None } });
    assert_eq!(
        cf.range(Some(b"k2")),
        EngineCall::IteratorInit { family: 7, start: Slice { length: 2, data: Some(&b"k2"[..]) } }
    );
}

#[test]
fn range_yields_values_with_keys() {
    let mut engine = FakeEngine::new();
    let cf = open_family(&mut engine, 24);
    insert(&mut engine, &cf, b"a", b"1").unwrap();
    let mut it = open_range(&mut engine, &cf, None);
    assert!(it.current().is_none());
    assert_eq!(advance(&mut engine, &mut it), Ok(true));
    let record = it.current().unwrap();
    assert_eq!(record.key(), &b"a"[..]);
    assert_eq!(record.value(), &b"1"[..]);
}

#[test]
fn first_step_does_not_move_the_cursor() {
    let mut engine = FakeEngine::new();
    let cf = open_family(&mut engine, 24);
    insert(&mut engine, &cf, b"a", b"1").unwrap();
    insert(&mut engine, &cf, b"b", b"2").unwrap();
    let mut it = open_range(&mut engine, &cf, None);
    engine.log.clear();
    assert_eq!(advance(&mut engine, &mut it), Ok(true));
    assert_eq!(
        engine.log,
        vec![shown(EngineCall::IteratorValid { cursor: 0 }), shown(EngineCall::IteratorGetCurrent { cursor: 0 })]
    );
    engine.log.clear();
    assert_eq!(advance(&mut engine, &mut it), Ok(true));
    assert_eq!(
        engine.log,
        vec![
            shown(EngineCall::IteratorNext { cursor: 0 }),
            shown(EngineCall::IteratorValid { cursor: 0 }),
            shown(EngineCall::IteratorGetCurrent { cursor: 0 }),
        ]
    );
    engine.log.clear();
    assert_eq!(advance(&mut engine, &mut it), Ok(false));
    assert_eq!(
        engine.log,
        vec![
            shown(EngineCall::IteratorNext { cursor: 0 }),
            shown(EngineCall::IteratorValid { cursor: 0 }),
            shown(EngineCall::IteratorStatus { cursor: 0 }),
        ]
    );
}

#[test]
fn empty_family_ends_at_once() {
    let mut engine = FakeEngine::new();
    let cf = open_family(&mut engine, 24);
    let mut it = open_range(&mut engine, &cf, None);
    assert_eq!(advance(&mut engine, &mut it), Ok(false));
    assert!(it.current().is_none());
    assert!(it.is_finished());
}

#[test]
fn exhausted_iterator_yields_no_record() {
    let mut engine = FakeEngine::new();
    let cf = open_family(&mut engine, 24);
    insert(&mut engine, &cf, b"a", b"1").unwrap();
    let mut it = open_range(&mut engine, &cf, None);
    assert_eq!(advance(&mut engine, &mut it), Ok(true));
    assert_eq!(advance(&mut engine, &mut it), Ok(false));
    engine.log.clear();
    assert_eq!(advance(&mut engine, &mut it), Ok(false));
    assert_eq!(advance(&mut engine, &mut it), Ok(false));
    assert!(it.current().is_none());
    assert!(engine.log.is_empty());
}

#[test]
fn record_is_replaced_by_the_next_step() {
    let mut engine = FakeEngine::new();
    let cf = open_family(&mut engine, 24);
    insert(&mut engine, &cf, b"a", b"1").unwrap();
    insert(&mut engine, &cf, b"b", b"2").unwrap();
    let mut it = open_range(&mut engine, &cf, None);
    assert_eq!(advance(&mut engine, &mut it), Ok(true));
    let kept_key = it.current().unwrap().key().to_vec();
    let kept_value = it.current().unwrap().value().to_vec();
    assert_eq!(it.current().unwrap().key(), &kept_key[..]);
    assert_eq!(it.current().unwrap().value(), &kept_value[..]);
    assert_eq!(advance(&mut engine, &mut it), Ok(true));
    assert_ne!(it.current().unwrap().key(), &kept_key[..]);
    assert_ne!(it.current().unwrap().value(), &kept_value[..]);
    assert_eq!(it.current().unwrap().key(), &b"b"[..]);
    assert_eq!(kept_key, b"a".to_vec());
    assert_eq!(kept_value, b"1".to_vec());
}

#[test]
fn iterator_failure_ends_the_walk() {
    let mut engine = FakeEngine::new();
    let cf = open_family(&mut engine, 24);
    insert(&mut engine, &cf, b"a", b"1").unwrap();
    insert(&mut engine, &cf, b"b", b"2").unwrap();
    let mut it = open_range(&mut engine, &cf, None);
    assert_eq!(advance(&mut engine, &mut it), Ok(true));
    engine.cursor_status = 9;
    assert_eq!(advance(&mut engine, &mut it), Err(SplinterError::Engine { code: 9 }));
    assert!(it.is_finished());
    assert!(it.current().is_none());
    assert_eq!(advance(&mut engine, &mut it), Ok(false));
}

#[test]
fn range_refused_by_the_engine() {
    let mut engine = FakeEngine::new();
    let cf = open_family(&mut engine, 24);
    assert_eq!(cf.range_opened(3, 0).err(), Some(SplinterError::Engine { code: 3 }));
    assert!(cf.range_opened(0, 11).is_ok());
}

#[test]
fn key_of_maximum_size_is_inserted() {
    let mut engine = FakeEngine::new();
    let cf = open_family(&mut engine, 8);
    assert_eq!(cf.key_limit(), 8);
    let key = [b'k'; 8];
    assert_eq!(insert(&mut engine, &cf, &key, b"v"), Ok(()));
    assert_eq!(run_lookup(&mut engine, cf.lookup(&key)), Ok(LookupResult::Found(b"v".to_vec())));
}

#[test]
fn key_over_maximum_size_is_refused() {
    let mut engine = FakeEngine::new();
    let cf = open_family(&mut engine, 8);
    let key = [b'k'; 9];
    engine.log.clear();
    assert_eq!(insert(&mut engine, &cf, &key, b"v"), Err(SplinterError::KeyTooLarge { len: 9, max: 8 }));
    assert!(engine.log.is_empty());
    assert_eq!(run_lookup(&mut engine, cf.lookup(&key[..8])), Ok(LookupResult::NotFound));
}

#[test]
fn iterator_is_set_up_and_released_once() {
    let mut engine = FakeEngine::new();
    let cf = open_family(&mut engine, 24);
    insert(&mut engine, &cf, b"a", b"1").unwrap();
    insert(&mut engine, &cf, b"b", b"2").unwrap();
    let mut it = open_range(&mut engine, &cf, None);
    assert_eq!(advance(&mut engine, &mut it), Ok(true));
    let release = it.close();
    assert_eq!(release, EngineCall::IteratorDeinit { cursor: 0 });
    engine.perform(release);
    assert_eq!(engine.count("IteratorInit"), 1);
    assert_eq!(engine.count("IteratorDeinit"), 1);
}

#[test]
fn lookup_releases_its_buffer_when_found() {
    let mut engine = FakeEngine::new();
    let cf = open_family(&mut engine, 24);
    insert(&mut engine, &cf, b"a", b"1").unwrap();
    engine.log.clear();
    run_lookup(&mut engine, cf.lookup(b"a")).unwrap();
    assert_eq!(
        engine.log,
        vec![
            shown(EngineCall::LookupResultInit { family: 7 }),
            shown(EngineCall::Lookup { family: 7, key: create_splinter_slice(b"a") }),
            shown(EngineCall::LookupFound),
            shown(EngineCall::LookupResultValue),
            shown(EngineCall::LookupResultDeinit),
        ]
    );
}

#[test]
fn lookup_releases_its_buffer_on_failure() {
    let mut engine = FakeEngine::new();
    let cf = open_family(&mut engine, 24);
    insert(&mut engine, &cf, b"a", b"1").unwrap();
    engine.lookup_status = 4;
    engine.log.clear();
    assert_eq!(run_lookup(&mut engine, cf.lookup(b"a")), Err(SplinterError::Engine { code: 4 }));
    assert_eq!(
        engine.log,
        vec![
            shown(EngineCall::LookupResultInit { family: 7 }),
            shown(EngineCall::Lookup { family: 7, key: create_splinter_slice(b"a") }),
            shown(EngineCall::LookupResultDeinit),
        ]
    );
}

#[test]
fn lookup_reports_a_failed_value_call() {
    let mut engine = FakeEngine::new();
    let cf = open_family(&mut engine, 24);
    insert(&mut engine, &cf, b"a", b"1").unwrap();
    engine.value_status = 6;
    engine.log.clear();
    assert_eq!(run_lookup(&mut engine, cf.lookup(b"a")), Err(SplinterError::Engine { code: 6 }));
    assert_eq!(engine.log.last(), Some(&shown(EngineCall::LookupResultDeinit)));
    assert_eq!(engine.count("LookupResultDeinit"), 1);
    assert_eq!(engine.count("LookupResultInit"), 1);
}

#[test]
fn lookup_refuses_an_answer_of_the_wrong_kind() {
    let mut lookup = LookupProtocol::new(1, b"a");
    assert_eq!(lookup.step(EngineReply::Nothing), LookupStep::Call(EngineCall::LookupResultInit { family: 1 }));
    assert_eq!(
        lookup.step(EngineReply::Nothing),
        LookupStep::Call(EngineCall::Lookup { family: 1, key: create_splinter_slice(b"a") })
    );
    assert_eq!(lookup.step(EngineReply::Flag { flag: true }), LookupStep::Call(EngineCall::LookupResultDeinit));
    assert!(!lookup.is_finished());
    assert_eq!(lookup.step(EngineReply::Nothing), LookupStep::Done(Err(SplinterError::Protocol)));
    assert!(lookup.is_finished());
    assert_eq!(lookup.step(EngineReply::Nothing), LookupStep::Done(Err(SplinterError::Protocol)));
}

#[test]
fn iterator_refuses_an_answer_of_the_wrong_kind() {
    let mut it = RangeIterator::new(3);
    assert_eq!(it.next(EngineReply::Nothing), NextStep::Call(EngineCall::IteratorValid { cursor: 3 }));
    assert_eq!(it.next(EngineReply::Status { status: 0 }), NextStep::Done(Err(SplinterError::Protocol)));
    assert!(it.is_finished());
}

#[test]
fn fresh_handle_creates_a_database() {
    let mut db = SplinterDBWithColumnFamilies::new();
    assert!(!db.is_open());
    let cfg = DBConfig { cache_size_bytes: 1024, disk_size_bytes: 4096, max_key_size: 24 };
    assert_eq!(
        db.db_create(b"/data/db", &cfg),
        Ok(EngineCall::Create { path: &b"/data/db"[..], cache_size: 1024, disk_size: 4096, max_key_size: 24 })
    );
    assert!(!db.is_open());
    assert_eq!(db.db_opened(0), Ok(()));
    assert!(db.is_open());
    assert_eq!(db.max_key_size(), 24);
    assert_eq!(db.close(), Some(EngineCall::Close));
}

#[test]
fn fresh_handle_opens_a_database() {
    let mut db = SplinterDBWithColumnFamilies::new();
    let cfg = DBConfig { cache_size_bytes: 1024, disk_size_bytes: 4096, max_key_size: 16 };
    assert_eq!(
        db.db_open(b"/data/db", &cfg),
        Ok(EngineCall::Open { path: &b"/data/db"[..], cache_size: 1024, disk_size: 4096, max_key_size: 16 })
    );
    assert_eq!(db.db_opened(0), Ok(()));
    assert!(db.is_open());
}

#[test]
fn refused_open_is_reported_with_its_code() {
    let mut db = SplinterDBWithColumnFamilies::new();
    let cfg = DBConfig { cache_size_bytes: 1024, disk_size_bytes: 4096, max_key_size: 16 };
    db.db_open(b"/missing", &cfg).unwrap();
    assert_eq!(db.db_opened(2), Err(SplinterError::Engine { code: 2 }));
    assert!(!db.is_open());
    assert_eq!(db.column_family_create::<DefaultSdb>(8), Err(SplinterError::BadState));
    assert_eq!(db.register_thread(), Err(SplinterError::BadState));
    assert_eq!(db.close(), Some(EngineCall::Close));
}

#[test]
fn handle_is_opened_once() {
    let mut db = SplinterDBWithColumnFamilies::new();
    let cfg = DBConfig { cache_size_bytes: 1024, disk_size_bytes: 4096, max_key_size: 16 };
    assert_eq!(db.db_opened(0), Err(SplinterError::BadState));
    db.db_create(b"/data/db", &cfg).unwrap();
    assert_eq!(db.db_create(b"/data/db", &cfg), Err(SplinterError::BadState));
    assert_eq!(db.db_opened(0), Ok(()));
    assert_eq!(db.db_open(b"/data/db", &cfg), Err(SplinterError::BadState));
    assert_eq!(db.db_opened(0), Err(SplinterError::BadState));
    assert!(db.is_open());
}

#[test]
fn unused_handle_has_nothing_to_release() {
    let db = SplinterDBWithColumnFamilies::new();
    assert_eq!(db.close(), None);
}

#[test]
fn threads_register_with_an_open_database() {
    let mut db = SplinterDBWithColumnFamilies::new();
    assert_eq!(db.register_thread(), Err(SplinterError::BadState));
    assert_eq!(db.deregister_thread(), Err(SplinterError::BadState));
    let cfg = DBConfig { cache_size_bytes: 1024, disk_size_bytes: 4096, max_key_size: 16 };
    db.db_create(b"/data/db", &cfg).unwrap();
    db.db_opened(0).unwrap();
    assert_eq!(db.register_thread(), Ok(EngineCall::RegisterThread));
    assert_eq!(db.deregister_thread(), Ok(EngineCall::DeregisterThread));
}

#[test]
fn family_within_the_ceiling_is_granted() {
    let mut db = SplinterDBWithColumnFamilies::new();
    let cfg = DBConfig { cache_size_bytes: 1024, disk_size_bytes: 4096, max_key_size: 16 };
    db.db_create(b"/data/db", &cfg).unwrap();
    db.db_opened(0).unwrap();
    assert_eq!(db.column_family_create::<DefaultSdb>(16), Ok(EngineCall::FamilyCreate { max_key_size: 16 }));
    let cf = db.column_family_attach(16, 42).unwrap();
    assert_eq!(cf.key_limit(), 16);
    assert_eq!(cf.release(), EngineCall::FamilyDelete { family: 42 });
}

#[test]
fn family_over_the_ceiling_is_refused() {
    let mut db = SplinterDBWithColumnFamilies::new();
    let cfg = DBConfig { cache_size_bytes: 1024, disk_size_bytes: 4096, max_key_size: 16 };
    db.db_create(b"/data/db", &cfg).unwrap();
    db.db_opened(0).unwrap();
    assert_eq!(
        db.column_family_create::<DefaultSdb>(17),
        Err(SplinterError::MaxKeySizeExceeded { requested: 17, ceiling: 16 })
    );
    assert_eq!(
        db.column_family_attach(17, 1).err(),
        Some(SplinterError::MaxKeySizeExceeded { requested: 17, ceiling: 16 })
    );
}

#[test]
fn bytewise_order_goes_by_the_first_difference() {
    assert_eq!(bytewise_key_comp(b"k1", b"k2"), KeyOrder::Less);
    assert_eq!(bytewise_key_comp(b"k2", b"k1"), KeyOrder::Greater);
    assert_eq!(bytewise_key_comp(b"k2", b"k2"), KeyOrder::Equal);
    assert_eq!(bytewise_key_comp(b"b", b"ab"), KeyOrder::Greater);
    assert_eq!(bytewise_key_comp(&[0x7f], &[0x80]), KeyOrder::Less);
}

#[test]
fn bytewise_order_puts_a_beginning_first() {
    assert_eq!(bytewise_key_comp(b"", b""), KeyOrder::Equal);
    assert_eq!(bytewise_key_comp(b"", b"a"), KeyOrder::Less);
    assert_eq!(bytewise_key_comp(b"ab", b"abc"), KeyOrder::Less);
    assert_eq!(bytewise_key_comp(b"abc", b"ab"), KeyOrder::Greater);
}

#[test]
fn key_adapter_answers_with_a_sign() {
    let k1 = create_splinter_slice(b"k1");
    let k2 = create_splinter_slice(b"k2");
    assert_eq!(key_comp_trampoline::<DefaultSdb>(&k1, &k2), -1);
    assert_eq!(key_comp_trampoline::<DefaultSdb>(&k2, &k1), 1);
    assert_eq!(key_comp_trampoline::<DefaultSdb>(&k2, &k2), 0);
    assert_eq!(key_comp_trampoline::<DefaultSdb>(&null_slice(), &k1), -1);
    assert_eq!(key_comp_trampoline::<DefaultSdb>(&null_slice(), &create_splinter_slice(b"")), 0);
}

#[test]
fn default_merge_takes_the_delta() {
    let key = create_splinter_slice(b"k");
    let old = create_splinter_slice(b"old");
    let delta = create_splinter_slice(b"new");
    assert_eq!(merge_trampoline::<DefaultSdb>(&key, &old, &delta), b"new".to_vec());
    assert_eq!(merge_trampoline::<DefaultSdb>(&key, &null_slice(), &delta), b"new".to_vec());
    assert_eq!(merge_trampoline::<DefaultSdb>(&key, &old, &delta), merge_trampoline::<DefaultSdb>(&key, &old, &delta));
    assert_eq!(DefaultSdb::merge(b"k", Some(b"old"), b"new"), b"new".to_vec());
    assert_eq!(DefaultSdb::key_comp(b"a", b"b"), KeyOrder::Less);
}

#[test]
fn default_read_gives_the_entry() {
    let key = create_splinter_slice(b"k");
    let oldest = create_splinter_slice(b"entry");
    assert_eq!(merge_final_trampoline::<DefaultSdb>(&key, &oldest), b"entry".to_vec());
    assert_eq!(DefaultSdb::merge_final(b"k", b"entry"), b"entry".to_vec());
}

#[test]
fn walk_ascends_in_the_family_order() {
    let mut engine = FakeEngine::new();
    let cf = open_family(&mut engine, 24);
    for key in [&b"b"[..], b"", b"ab", b"a", b"abc"] {
        insert(&mut engine, &cf, key, b"v").unwrap();
    }
    let mut it = open_range(&mut engine, &cf, None);
    let keys = collect_keys(&mut engine, &mut it);
    assert_eq!(keys, vec![b"".to_vec(), b"a".to_vec(), b"ab".to_vec(), b"abc".to_vec(), b"b".to_vec()]);
    for pair in keys.windows(2) {
        assert_eq!(bytewise_key_comp(&pair[0], &pair[1]), KeyOrder::Less);
    }
}

#[test]
fn outbound_slice_borrows_the_bytes() {
    let bytes = vec![9u8, 8, 7];
    let s = create_splinter_slice(&bytes);
    assert_eq!(s.data.unwrap().as_ptr(), bytes.as_ptr());
    let copy = s.to_vec();
    assert_eq!(copy, bytes);
    assert_ne!(copy.as_ptr(), bytes.as_ptr());
}

#[test]
fn found_value_is_a_copy_of_its_own() {
    let mut lookup = LookupProtocol::new(1, b"a");
    lookup.step(EngineReply::Nothing);
    lookup.step(EngineReply::Nothing);
    lookup.step(EngineReply::Status { status: 0 });
    lookup.step(EngineReply::Flag { flag: true });
    let mut buffer = vec![1u8, 2, 3, 4, 5];
    let step = lookup.step(EngineReply::Value { status: 0, data: &buffer });
    assert_eq!(step, LookupStep::Call(EngineCall::LookupResultDeinit));
    buffer.clear();
    match lookup.step(EngineReply::Nothing) {
        LookupStep::Done(Ok(LookupResult::Found(value))) => {
            assert_eq!(value, vec![1, 2, 3, 4, 5]);
            assert_eq!(value.len(), 5);
        }
        other => panic!("unexpected step {:?}", other),
    }
}
