//! What holds of the protocols as a whole, stated against a model of the
//! engine: a column family is a map from keys to values, a cursor is a
//! position in the family's records in ascending key order.
use vstd::prelude::*;
use crate::data_config::{KeyOrder, SdbRustDataFuncs};
use crate::engine::{CallModel, ReplyModel};
use crate::family::{delete_request, insert_request, update_request};
use crate::iterator::{iterator_start, next_step, CursorPhase, IteratorModel, NextStepModel};
use crate::lookup::{
    lookup_outcome, lookup_start, lookup_step, LookupModel, LookupOutcome, LookupPhase,
    LookupStepModel,
};
use crate::slice::slice_bytes;
use crate::status::SplinterError;

verus! {

/// The records of one column family.
pub type Records = Map<Seq<u8>, Seq<u8>>;

/// The value before a merge: the record's value, or none.
pub open spec fn stored(records: Records, key: Seq<u8>) -> Option<Seq<u8>> {
    if records.contains_key(key) {
        Some(records[key])
    } else {
        None
    }
}

/// The records of a family after the engine has carried out `call` with
/// success. `merge` is the family's merge function: from the value
/// stored so far, if any, and a delta to the new value.
pub open spec fn records_after(
    records: Records,
    call: CallModel,
    merge: spec_fn(Option<Seq<u8>>, Seq<u8>) -> Seq<u8>,
) -> Records {
    match call {
        CallModel::Insert { family, key, value } => records.insert(
            slice_bytes(key),
            slice_bytes(value),
        ),
        CallModel::Update { family, key, delta } => records.insert(
            slice_bytes(key),
            merge(stored(records, slice_bytes(key)), slice_bytes(delta)),
        ),
        CallModel::Delete { family, key } => records.remove(slice_bytes(key)),
        _ => records,
    }
}

/// Where a lookup stands after the answer `reply`.
pub open spec fn lookup_after(m: LookupModel, reply: ReplyModel) -> LookupModel {
    lookup_step(m, reply).0
}

/// What a lookup asks for or reports on the answer `reply`.
pub open spec fn lookup_says(m: LookupModel, reply: ReplyModel) -> LookupStepModel {
    lookup_step(m, reply).1
}

/// The lookup of `key` after its first two steps: the result buffer is
/// set up and the lookup call is issued.
pub open spec fn lookup_issued(family: u64, key: Seq<u8>) -> LookupModel {
    lookup_after(lookup_after(lookup_start(family, key), ReplyModel::Nothing), ReplyModel::Nothing)
}

/// What the lookup protocol reports when it is run to its end against an
/// engine that answers the lookup call with `status`, the found question
/// with `found`, and the value question with `value_status` and `value`.
/// Each question is put only where the protocol asks it.
pub open spec fn lookup_report(
    family: u64,
    key: Seq<u8>,
    status: i32,
    found: bool,
    value_status: i32,
    value: Seq<u8>,
) -> LookupStepModel {
    let queried = lookup_after(lookup_issued(family, key), ReplyModel::Status { status });
    let probed = if queried.phase == LookupPhase::Probing {
        lookup_after(queried, ReplyModel::Flag { flag: found })
    } else {
        queried
    };
    let extracted = if probed.phase == LookupPhase::Extracting {
        lookup_after(probed, ReplyModel::Value { status: value_status, data: value })
    } else {
        probed
    };
    lookup_says(extracted, ReplyModel::Nothing)
}

/// What a lookup of `key` reports against a family that holds `records`
/// and whose engine succeeds.
pub open spec fn lookup_in(records: Records, family: u64, key: Seq<u8>) -> LookupStepModel {
    lookup_report(
        family,
        key,
        0,
        records.contains_key(key),
        0,
        if records.contains_key(key) {
            records[key]
        } else {
            Seq::empty()
        },
    )
}

/// The lookup protocol sets the result buffer up first and looks the key
/// up second; it asks for the found flag only after a good status and
/// for the value only after a yes; on every path the call before the
/// report releases the result buffer, and the report is the one that
/// `lookup_outcome` gives.
pub proof fn lookup_protocol_runs(
    family: u64,
    key: Seq<u8>,
    status: i32,
    found: bool,
    value_status: i32,
    value: Seq<u8>,
)
    ensures
        lookup_says(lookup_start(family, key), ReplyModel::Nothing) == LookupStepModel::Call(
            CallModel::LookupResultInit { family },
        ),
        lookup_says(
            lookup_after(lookup_start(family, key), ReplyModel::Nothing),
            ReplyModel::Nothing,
        ) == LookupStepModel::Call(CallModel::Lookup { family, key: Some(key) }),
        ({
            let issued = lookup_issued(family, key);
            let on_status = lookup_says(issued, ReplyModel::Status { status });
            let queried = lookup_after(issued, ReplyModel::Status { status });
            let on_flag = lookup_says(queried, ReplyModel::Flag { flag: found });
            let probed = lookup_after(queried, ReplyModel::Flag { flag: found });
            let on_value = lookup_says(
                probed,
                ReplyModel::Value { status: value_status, data: value },
            );
            let release = LookupStepModel::Call(CallModel::LookupResultDeinit);
            &&& status != 0 ==> on_status == release
            &&& status == 0 ==> on_status == LookupStepModel::Call(CallModel::LookupFound)
            &&& status == 0 && !found ==> on_flag == release
            &&& status == 0 && found ==> on_flag == LookupStepModel::Call(
                CallModel::LookupResultValue,
            )
            &&& status == 0 && found ==> on_value == release
        }),
        lookup_report(family, key, status, found, value_status, value) == LookupStepModel::Done(
            lookup_outcome(status, found, value_status, value),
        ),
{
}

/// Once a lookup has reported, every further step reports the same and
/// asks the engine for nothing.
pub proof fn lookup_report_is_final(m: LookupModel, reply: ReplyModel, later: ReplyModel)
    requires
        lookup_says(m, reply) is Done,
    ensures
        lookup_after(m, reply).phase == LookupPhase::Finished,
        lookup_says(lookup_after(m, reply), later) == lookup_says(m, reply),
        lookup_after(lookup_after(m, reply), later) == lookup_after(m, reply),
{
}

/// A record that was inserted is found: for a key within the family's
/// limit the insert is granted, and after it a lookup of the key reports
/// the value that was inserted, byte for byte.
pub proof fn insert_then_lookup(
    records: Records,
    family: u64,
    max_key_size: u64,
    key: Seq<u8>,
    value: Seq<u8>,
    merge: spec_fn(Option<Seq<u8>>, Seq<u8>) -> Seq<u8>,
)
    requires
        key.len() <= max_key_size,
    ensures
        insert_request(family, max_key_size, key, value) is Ok,
        lookup_in(
            records_after(records, insert_request(family, max_key_size, key, value)->Ok_0, merge),
            family,
            key,
        ) == LookupStepModel::Done(Ok(Some(value))),
{
}

/// A record that was deleted is not found, whether it was there or not;
/// and deleting a key that is absent leaves the records as they were.
pub proof fn delete_then_lookup(
    records: Records,
    family: u64,
    key: Seq<u8>,
    merge: spec_fn(Option<Seq<u8>>, Seq<u8>) -> Seq<u8>,
)
    ensures
        lookup_in(records_after(records, delete_request(family, key), merge), family, key)
            == LookupStepModel::Done(Ok(None)),
        !records.contains_key(key) ==> records_after(records, delete_request(family, key), merge)
            == records,
{
    if !records.contains_key(key) {
        assert(records.remove(key) =~= records);
    }
}

/// An update is determined by the records it starts from, the key, the
/// delta and the family's merge function: two families in the same state
/// end in the same state, and a lookup of the key reports the merge of
/// the value stored before with the delta.
pub proof fn update_is_determined(
    first: Records,
    second: Records,
    first_family: u64,
    second_family: u64,
    key: Seq<u8>,
    delta: Seq<u8>,
    merge: spec_fn(Option<Seq<u8>>, Seq<u8>) -> Seq<u8>,
)
    requires
        first == second,
    ensures
        records_after(first, update_request(first_family, key, delta), merge) == records_after(
            second,
            update_request(second_family, key, delta),
            merge,
        ),
        lookup_in(
            records_after(first, update_request(first_family, key, delta), merge),
            first_family,
            key,
        ) == LookupStepModel::Done(Ok(Some(merge(stored(first, key), delta)))),
{
}

/// A key of exactly the family's limit is granted and handed on in
/// full; a key one byte longer is refused with its length, and nothing
/// is asked of the engine.
pub proof fn key_size_boundary(family: u64, max_key_size: u64, key: Seq<u8>, value: Seq<u8>)
    ensures
        key.len() == max_key_size ==> insert_request(family, max_key_size, key, value) == Ok::<
            CallModel,
            SplinterError,
        >(CallModel::Insert { family, key: Some(key), value: Some(value) }),
        key.len() == max_key_size + 1 ==> insert_request(family, max_key_size, key, value) == Err::<
            CallModel,
            SplinterError,
        >(SplinterError::KeyTooLarge { len: key.len() as usize, max: max_key_size }),
        insert_request(family, max_key_size, key, value) is Ok <==> key.len() <= max_key_size,
{
}

/// The engine's side of a range walk: the records that the cursor runs
/// over, in the order of the family's keys from the start key on, and
/// the place where the cursor stands.
pub ghost struct CursorModel {
    pub items: Seq<(Seq<u8>, Seq<u8>)>,
    pub pos: nat,
}

/// What a cursor of the engine answers to a call, and where it stands
/// afterwards. The cursor never fails.
pub open spec fn cursor_answer(c: CursorModel, call: CallModel) -> (CursorModel, ReplyModel) {
    match call {
        CallModel::IteratorNext { cursor } => (
            CursorModel { pos: c.pos + 1, ..c },
            ReplyModel::Nothing,
        ),
        CallModel::IteratorValid { cursor } => (c, ReplyModel::Flag { flag: c.pos < c.items.len() }),
        CallModel::IteratorGetCurrent { cursor } => (
            c,
            ReplyModel::Record { key: c.items[c.pos as int].0, value: c.items[c.pos as int].1 },
        ),
        CallModel::IteratorStatus { cursor } => (c, ReplyModel::Status { status: 0 }),
        _ => (c, ReplyModel::Nothing),
    }
}

/// Runs the iterator against a cursor, answer by answer, until a step
/// ends or `turns` answers were given.
pub open spec fn run_step(m: IteratorModel, c: CursorModel, reply: ReplyModel, turns: nat) -> (
    IteratorModel,
    CursorModel,
    Option<Result<bool, SplinterError>>,
)
    decreases turns,
{
    if turns == 0 {
        (m, c, None)
    } else {
        let (after, says) = next_step(m, reply);
        match says {
            NextStepModel::Done(report) => (after, c, Some(report)),
            NextStepModel::Call(call) => {
                let (moved, answer) = cursor_answer(c, call);
                run_step(after, moved, answer, (turns - 1) as nat)
            },
        }
    }
}

/// The iterator and the cursor after `steps` steps from a fresh cursor
/// over `items`, with the report of the last step.
pub open spec fn walk(items: Seq<(Seq<u8>, Seq<u8>)>, cursor: u64, steps: nat) -> (
    IteratorModel,
    CursorModel,
    Option<Result<bool, SplinterError>>,
)
    decreases steps,
{
    if steps == 0 {
        (iterator_start(cursor), CursorModel { items, pos: 0 }, None)
    } else {
        let before = walk(items, cursor, (steps - 1) as nat);
        run_step(before.0, before.1, ReplyModel::Nothing, 4)
    }
}

/// A walk yields the cursor's records in their order, each once and the
/// first one first: step number `n` ends on record number `n` as long
/// as there is one, with the cursor standing on it, and every step
/// after the last record reports the end and holds no record.
pub proof fn walk_yields_in_order(items: Seq<(Seq<u8>, Seq<u8>)>, cursor: u64, steps: nat)
    requires
        steps >= 1,
    ensures
        steps <= items.len() ==> {
            let (it, cur, report) = walk(items, cursor, steps);
            &&& report == Some(Ok::<bool, SplinterError>(true))
            &&& it.current == Some(items[steps - 1])
            &&& it.phase == CursorPhase::Idle
            &&& cur.pos == steps - 1
        },
        steps > items.len() ==> {
            let (it, cur, report) = walk(items, cursor, steps);
            &&& report == Some(Ok::<bool, SplinterError>(false))
            &&& it.current is None
            &&& it.phase == CursorPhase::Finished
        },
        walk(items, cursor, steps).0.cursor == cursor,
        walk(items, cursor, steps).1.items == items,
    decreases steps,
{
    reveal_with_fuel(run_step, 5);
    if steps > 1 {
        walk_yields_in_order(items, cursor, (steps - 1) as nat);
    }
    let before = walk(items, cursor, (steps - 1) as nat);
    assert(walk(items, cursor, steps) == run_step(before.0, before.1, ReplyModel::Nothing, 4));
    if steps <= items.len() {
        let record = items[steps - 1];
        assert(Some((record.0, record.1)) == Some(record));
    }
}

/// A fresh iterator asks first whether the cursor stands on a record,
/// without moving it; an iterator that holds a record moves the cursor
/// before it asks.
pub proof fn first_step_does_not_advance(m: IteratorModel, reply: ReplyModel)
    requires
        m.phase == CursorPhase::Idle,
    ensures
        m.current is None ==> next_step(m, reply).1 == NextStepModel::Call(
            CallModel::IteratorValid { cursor: m.cursor },
        ),
        m.current is Some ==> next_step(m, reply).1 == NextStepModel::Call(
            CallModel::IteratorNext { cursor: m.cursor },
        ),
        next_step(iterator_start(m.cursor), reply).1 == NextStepModel::Call(
            CallModel::IteratorValid { cursor: m.cursor },
        ),
{
}

/// A step that ends without a record ends the walk: the end of the
/// records and every failure leave the iterator finished and without a
/// record. From then on every step reports the end, changes nothing and
/// asks the engine for nothing, so no step after the end yields a
/// record.
pub proof fn end_of_walk_is_final(m: IteratorModel, reply: ReplyModel, later: ReplyModel)
    requires
        m.phase != CursorPhase::Finished,
        next_step(m, reply).1 is Done,
        next_step(m, reply).1 != NextStepModel::Done(Ok(true)),
    ensures
        next_step(m, reply).0.phase == CursorPhase::Finished,
        next_step(m, reply).0.current is None,
        next_step(next_step(m, reply).0, later) == (
            next_step(m, reply).0,
            NextStepModel::Done(Ok(false)),
        ),
{
}

/// A step that ends on a record holds the record that the engine gave
/// last, not the one held before, and is ready for the next step.
pub proof fn record_replaces_record(m: IteratorModel, reply: ReplyModel)
    requires
        next_step(m, reply).1 == NextStepModel::Done(Ok(true)),
    ensures
        m.phase == CursorPhase::Reading,
        reply is Record,
        next_step(m, reply).0.current == Some((reply->Record_key, reply->Record_value)),
        next_step(m, reply).0.phase == CursorPhase::Idle,
{
}

/// The steps of an iterator speak to its own cursor only, and only to
/// move it, to ask whether it stands on a record, to read the record or
/// to ask for its status: no step sets a cursor up or releases one.
pub proof fn steps_keep_the_cursor(m: IteratorModel, reply: ReplyModel)
    ensures
        next_step(m, reply).0.cursor == m.cursor,
        next_step(m, reply).1 matches NextStepModel::Call(call) ==> {
            ||| call == (CallModel::IteratorNext { cursor: m.cursor })
            ||| call == (CallModel::IteratorValid { cursor: m.cursor })
            ||| call == (CallModel::IteratorGetCurrent { cursor: m.cursor })
            ||| call == (CallModel::IteratorStatus { cursor: m.cursor })
        },
{
}

/// The records are in ascending order of their keys, as the data
/// functions of `T` order them.
pub open spec fn ascending<T: SdbRustDataFuncs>(items: Seq<(Seq<u8>, Seq<u8>)>) -> bool {
    forall|i: int, j: int|
        0 <= i < j < items.len() ==> T::key_order(#[trigger] items[i].0, #[trigger] items[j].0)
            == KeyOrder::Less
}

/// Over a cursor whose records ascend, a walk ascends: the record that
/// an earlier step ends on has a key less than the record of every later
/// step, so no key comes twice and none comes out of order.
pub proof fn walk_is_ascending<T: SdbRustDataFuncs>(
    items: Seq<(Seq<u8>, Seq<u8>)>,
    cursor: u64,
    earlier: nat,
    later: nat,
)
    requires
        ascending::<T>(items),
        1 <= earlier < later <= items.len(),
    ensures
        walk(items, cursor, earlier).0.current is Some,
        walk(items, cursor, later).0.current is Some,
        T::key_order(
            walk(items, cursor, earlier).0.current->Some_0.0,
            walk(items, cursor, later).0.current->Some_0.0,
        ) == KeyOrder::Less,
{
    walk_yields_in_order(items, cursor, earlier);
    walk_yields_in_order(items, cursor, later);
    assert(T::key_order(items[earlier - 1].0, items[later - 1].0) == KeyOrder::Less);
}

/// In a family with the data functions of `T`, an update stores what the
/// merge function of `T` makes of the value stored before and the delta,
/// and a lookup reports it.
pub proof fn update_merges<T: SdbRustDataFuncs>(
    records: Records,
    family: u64,
    key: Seq<u8>,
    delta: Seq<u8>,
)
    ensures
        lookup_in(
            records_after(
                records,
                update_request(family, key, delta),
                |old: Option<Seq<u8>>, d: Seq<u8>| T::merged(key, old, d),
            ),
            family,
            key,
        ) == LookupStepModel::Done(Ok(Some(T::merged(key, stored(records, key), delta)))),
{
}

/// Whether a key lies in the range that starts at `start`: every key
/// does where there is no start key, else the start key and those after
/// it.
pub open spec fn in_range<T: SdbRustDataFuncs>(start: Option<Seq<u8>>, key: Seq<u8>) -> bool {
    match start {
        Some(from) => T::key_order(from, key) != KeyOrder::Greater,
        None => true,
    }
}

/// Whether `items` is what a cursor over `records` runs over from
/// `start` on: the records in range, each with its value, in ascending
/// order of their keys.
pub open spec fn is_range_of<T: SdbRustDataFuncs>(
    items: Seq<(Seq<u8>, Seq<u8>)>,
    records: Records,
    start: Option<Seq<u8>>,
) -> bool {
    &&& ascending::<T>(items)
    &&& forall|i: int|
        0 <= i < items.len() ==> {
            &&& records.contains_key(#[trigger] items[i].0)
            &&& records[items[i].0] == items[i].1
            &&& in_range::<T>(start, items[i].0)
        }
    &&& forall|key: Seq<u8>|
        records.contains_key(key) && in_range::<T>(start, key) ==> exists|i: int|
            0 <= i < items.len() && #[trigger] items[i].0 == key
}

/// A walk from a start key yields exactly the records in range: every
/// step that ends on a record ends on a record of the family at or
/// after the start key, with the value stored for it, and every such
/// record is the one that some step ends on.
pub proof fn walk_covers_the_range<T: SdbRustDataFuncs>(
    items: Seq<(Seq<u8>, Seq<u8>)>,
    records: Records,
    start: Option<Seq<u8>>,
    cursor: u64,
)
    requires
        is_range_of::<T>(items, records, start),
    ensures
        forall|step: nat|
            1 <= step <= items.len() ==> {
                let record = (#[trigger] walk(items, cursor, step)).0.current;
                &&& record is Some
                &&& records.contains_key(record->Some_0.0)
                &&& records[record->Some_0.0] == record->Some_0.1
                &&& in_range::<T>(start, record->Some_0.0)
            },
        forall|key: Seq<u8>|
            records.contains_key(key) && in_range::<T>(start, key) ==> exists|step: nat|
                1 <= step <= items.len() && (#[trigger] walk(items, cursor, step)).0.current
                    == Some((key, records[key])),
        walk(items, cursor, items.len() + 1).2 == Some(Ok::<bool, SplinterError>(false)),
{
    assert forall|step: nat| 1 <= step <= items.len() implies {
        let record = (#[trigger] walk(items, cursor, step)).0.current;
        &&& record is Some
        &&& records.contains_key(record->Some_0.0)
        &&& records[record->Some_0.0] == record->Some_0.1
        &&& in_range::<T>(start, record->Some_0.0)
    } by {
        walk_yields_in_order(items, cursor, step);
        assert(records.contains_key(items[step - 1].0));
    }
    assert forall|key: Seq<u8>| records.contains_key(key) && in_range::<T>(start, key) implies exists|
        step: nat,
    |
        1 <= step <= items.len() && (#[trigger] walk(items, cursor, step)).0.current == Some(
            (key, records[key]),
        ) by {
        let i = choose|i: int| 0 <= i < items.len() && #[trigger] items[i].0 == key;
        let step = (i + 1) as nat;
        walk_yields_in_order(items, cursor, step);
        assert(records.contains_key(items[i].0));
        assert(items[i] == (key, records[key]));
        assert(walk(items, cursor, step).0.current == Some((key, records[key])));
    }
    walk_yields_in_order(items, cursor, items.len() + 1);
}

} // verus!
