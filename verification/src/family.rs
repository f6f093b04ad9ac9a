//! A column family: the requests for insert, update and delete, the
//! start of a lookup and of a range walk.
use vstd::prelude::*;
use crate::engine::{CallModel, EngineCall};
use crate::iterator::{iterator_start, RangeIterator};
use crate::lookup::{lookup_start, LookupProtocol};
use crate::slice::{create_splinter_slice, optional_bytes, start_slice};
use crate::status::{as_result, SplinterError};

verus! {

/// A handle on one column family of a database.
#[derive(Debug)]
pub struct SplinterColumnFamily {
    handle: u64,
    max_key_size: u64,
}

/// What an insert of `key` and `value` asks of the engine: nothing, and
/// the key's length is reported, where the key is longer than
/// `max_key_size`; else the insert of both, unchanged.
pub open spec fn insert_request(handle: u64, max_key_size: u64, key: Seq<u8>, value: Seq<u8>) -> Result<
    CallModel,
    SplinterError,
> {
    if key.len() > max_key_size {
        Err(SplinterError::KeyTooLarge { len: key.len() as usize, max: max_key_size })
    } else {
        Ok(CallModel::Insert { family: handle, key: Some(key), value: Some(value) })
    }
}

/// What an update of `key` by `delta` asks of the engine.
pub open spec fn update_request(handle: u64, key: Seq<u8>, delta: Seq<u8>) -> CallModel {
    CallModel::Update { family: handle, key: Some(key), delta: Some(delta) }
}

/// What a delete of `key` asks of the engine.
pub open spec fn delete_request(handle: u64, key: Seq<u8>) -> CallModel {
    CallModel::Delete { family: handle, key: Some(key) }
}

/// What a range walk asks of the engine first.
pub open spec fn range_request(handle: u64, start: Option<Seq<u8>>) -> CallModel {
    CallModel::IteratorInit { family: handle, start }
}

impl SplinterColumnFamily {
    /// The handle that the engine gave for the family.
    pub closed spec fn handle(&self) -> u64 {
        self.handle
    }

    /// The greatest length of a key of the family.
    pub closed spec fn max_key_size(&self) -> u64 {
        self.max_key_size
    }

    /// The family behind an engine handle.
    pub(crate) fn new(handle: u64, max_key_size: u64) -> (cf: SplinterColumnFamily)
        ensures
            cf.handle() == handle,
            cf.max_key_size() == max_key_size,
    {
        SplinterColumnFamily { handle, max_key_size }
    }

    /// The greatest length of a key of the family.
    pub fn key_limit(&self) -> (r: u64)
        ensures
            r == self.max_key_size(),
    {
        self.max_key_size
    }

    /// The call that inserts or overwrites the record of `key`. A key
    /// longer than the family allows is refused; it is never cut short.
    /// The status of the call goes to [`as_result`].
    pub fn insert<'a>(&self, key: &'a [u8], value: &'a [u8]) -> (r: Result<
        EngineCall<'a>,
        SplinterError,
    >)
        ensures
            match insert_request(self.handle(), self.max_key_size(), key@, value@) {
                Ok(call) => r is Ok && r->Ok_0@ == call && r->Ok_0.wf(),
                Err(e) => r == Err::<EngineCall, _>(e),
            },
    {
        if key.len() as u64 > self.max_key_size {
            return Err(SplinterError::KeyTooLarge { len: key.len(), max: self.max_key_size });
        }
        Ok(
            EngineCall::Insert {
                family: self.handle,
                key: create_splinter_slice(key),
                value: create_splinter_slice(value),
            },
        )
    }

    /// The call that merges `delta` into the record of `key`. The delta's
    /// bytes are handed on as they are. The status of the call goes to
    /// [`as_result`].
    pub fn update<'a>(&self, key: &'a [u8], delta: &'a [u8]) -> (r: EngineCall<'a>)
        ensures
            r@ == update_request(self.handle(), key@, delta@),
            r.wf(),
    {
        EngineCall::Update {
            family: self.handle,
            key: create_splinter_slice(key),
            delta: create_splinter_slice(delta),
        }
    }

    /// The call that removes the record of `key`. The status of the call
    /// goes to [`as_result`].
    pub fn delete<'a>(&self, key: &'a [u8]) -> (r: EngineCall<'a>)
        ensures
            r@ == delete_request(self.handle(), key@),
            r.wf(),
    {
        EngineCall::Delete { family: self.handle, key: create_splinter_slice(key) }
    }

    /// A lookup of `key`, of which nothing was issued yet.
    pub fn lookup<'a>(&self, key: &'a [u8]) -> (p: LookupProtocol<'a>)
        ensures
            p@ == lookup_start(self.handle(), key@),
    {
        LookupProtocol::new(self.handle, key)
    }

    /// The call that sets up a cursor at `start_key`, or at the family's
    /// first key where none is given. Its answer goes to
    /// [`Self::range_opened`].
    pub fn range<'a>(&self, start_key: Option<&'a [u8]>) -> (r: EngineCall<'a>)
        ensures
            r@ == range_request(self.handle(), optional_bytes(start_key)),
            r.wf(),
    {
        EngineCall::IteratorInit { family: self.handle, start: start_slice(start_key) }
    }

    /// The iterator over the cursor that the engine set up, or the
    /// failure that the engine reported in place of a cursor.
    pub fn range_opened<'a>(&'a self, rc: i32, cursor: u64) -> (r: Result<
        RangeIterator<'a>,
        SplinterError,
    >)
        ensures
            rc == 0 ==> r is Ok && r->Ok_0@ == iterator_start(cursor),
            rc != 0 ==> r is Err && r->Err_0 == (SplinterError::Engine { code: rc }),
    {
        match as_result(rc) {
            Ok(_) => Ok(RangeIterator::new(cursor)),
            Err(e) => Err(e),
        }
    }

    /// Gives the family up. The call that comes back deletes the
    /// family's handle; since the family is consumed, it is issued once.
    pub fn release(self) -> (c: EngineCall<'static>)
        ensures
            c@ == (CallModel::FamilyDelete { family: self.handle() }),
            c.wf(),
    {
        EngineCall::FamilyDelete { family: self.handle }
    }
}

} // verus!
