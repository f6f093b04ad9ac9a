//! The boundary with the storage engine: the calls that the library asks
//! its caller to make, and the answers that come back.
use vstd::prelude::*;
use crate::slice::Slice;

verus! {

/// One call into the engine. Families and cursors are named by the handle
/// that the engine gave for them.
#[derive(Debug, Clone, Copy, PartialEq, Eq)]
pub enum EngineCall<'a> {
    /// Create a database at `path`; answered by a status.
    Create { path: &'a [u8], cache_size: u64, disk_size: u64, max_key_size: u64 },
    /// Open the database at `path`; answered by a status.
    Open { path: &'a [u8], cache_size: u64, disk_size: u64, max_key_size: u64 },
    /// Release the database and its shared configuration block.
    Close,
    /// Register the calling thread with the database.
    RegisterThread,
    /// Take the calling thread's registration back.
    DeregisterThread,
    /// Create a column family; answered by its handle.
    FamilyCreate { max_key_size: u64 },
    /// Delete a column family's handle.
    FamilyDelete { family: u64 },
    /// Insert or overwrite a record; answered by a status.
    Insert { family: u64, key: Slice<'a>, value: Slice<'a> },
    /// Merge a delta into a record; answered by a status.
    Update { family: u64, key: Slice<'a>, delta: Slice<'a> },
    /// Remove a record; answered by a status.
    Delete { family: u64, key: Slice<'a> },
    /// Set up an empty result buffer bound to a family.
    LookupResultInit { family: u64 },
    /// Look a key up into the result buffer; answered by a status.
    Lookup { family: u64, key: Slice<'a> },
    /// Ask whether the result buffer holds a value; answered by a flag.
    LookupFound,
    /// Ask for the value in the result buffer; answered by a status and
    /// the value's bytes.
    LookupResultValue,
    /// Release the result buffer.
    LookupResultDeinit,
    /// Set up a cursor from a start key, or from the first key for the
    /// null slice; answered by a status and the cursor's handle.
    IteratorInit { family: u64, start: Slice<'a> },
    /// Move a cursor to the following record.
    IteratorNext { cursor: u64 },
    /// Ask whether a cursor stands on a record; answered by a flag.
    IteratorValid { cursor: u64 },
    /// Ask for the record a cursor stands on; answered by a record.
    IteratorGetCurrent { cursor: u64 },
    /// Ask for a cursor's terminal status; answered by a status.
    IteratorStatus { cursor: u64 },
    /// Release a cursor.
    IteratorDeinit { cursor: u64 },
}

/// An engine call over mathematical byte sequences.
pub ghost enum CallModel {
    Create { path: Seq<u8>, cache_size: u64, disk_size: u64, max_key_size: u64 },
    Open { path: Seq<u8>, cache_size: u64, disk_size: u64, max_key_size: u64 },
    Close,
    RegisterThread,
    DeregisterThread,
    FamilyCreate { max_key_size: u64 },
    FamilyDelete { family: u64 },
    Insert { family: u64, key: Option<Seq<u8>>, value: Option<Seq<u8>> },
    Update { family: u64, key: Option<Seq<u8>>, delta: Option<Seq<u8>> },
    Delete { family: u64, key: Option<Seq<u8>> },
    LookupResultInit { family: u64 },
    Lookup { family: u64, key: Option<Seq<u8>> },
    LookupFound,
    LookupResultValue,
    LookupResultDeinit,
    IteratorInit { family: u64, start: Option<Seq<u8>> },
    IteratorNext { cursor: u64 },
    IteratorValid { cursor: u64 },
    IteratorGetCurrent { cursor: u64 },
    IteratorStatus { cursor: u64 },
    IteratorDeinit { cursor: u64 },
}

impl<'a> View for EngineCall<'a> {
    type V = CallModel;

    open spec fn view(&self) -> CallModel {
        match *self {
            EngineCall::Create { path, cache_size, disk_size, max_key_size } => CallModel::Create {
                path: path@,
                cache_size,
                disk_size,
                max_key_size,
            },
            EngineCall::Open { path, cache_size, disk_size, max_key_size } => CallModel::Open {
                path: path@,
                cache_size,
                disk_size,
                max_key_size,
            },
            EngineCall::Close => CallModel::Close,
            EngineCall::RegisterThread => CallModel::RegisterThread,
            EngineCall::DeregisterThread => CallModel::DeregisterThread,
            EngineCall::FamilyCreate { max_key_size } => CallModel::FamilyCreate { max_key_size },
            EngineCall::FamilyDelete { family } => CallModel::FamilyDelete { family },
            EngineCall::Insert { family, key, value } => CallModel::Insert {
                family,
                key: key@,
                value: value@,
            },
            EngineCall::Update { family, key, delta } => CallModel::Update {
                family,
                key: key@,
                delta: delta@,
            },
            EngineCall::Delete { family, key } => CallModel::Delete { family, key: key@ },
            EngineCall::LookupResultInit { family } => CallModel::LookupResultInit { family },
            EngineCall::Lookup { family, key } => CallModel::Lookup { family, key: key@ },
            EngineCall::LookupFound => CallModel::LookupFound,
            EngineCall::LookupResultValue => CallModel::LookupResultValue,
            EngineCall::LookupResultDeinit => CallModel::LookupResultDeinit,
            EngineCall::IteratorInit { family, start } => CallModel::IteratorInit {
                family,
                start: start@,
            },
            EngineCall::IteratorNext { cursor } => CallModel::IteratorNext { cursor },
            EngineCall::IteratorValid { cursor } => CallModel::IteratorValid { cursor },
            EngineCall::IteratorGetCurrent { cursor } => CallModel::IteratorGetCurrent { cursor },
            EngineCall::IteratorStatus { cursor } => CallModel::IteratorStatus { cursor },
            EngineCall::IteratorDeinit { cursor } => CallModel::IteratorDeinit { cursor },
        }
    }
}

impl<'a> EngineCall<'a> {
    /// Every slice that the call carries counts its bytes.
    pub open spec fn wf(&self) -> bool {
        match *self {
            EngineCall::Insert { family, key, value } => key.wf() && value.wf(),
            EngineCall::Update { family, key, delta } => key.wf() && delta.wf(),
            EngineCall::Delete { family, key } => key.wf(),
            EngineCall::Lookup { family, key } => key.wf(),
            EngineCall::IteratorInit { family, start } => start.wf(),
            _ => true,
        }
    }
}

/// What the engine answered to a call. Bytes in an answer are a view of
/// memory that the engine owns: they are good until the next call that
/// moves the cursor or releases the buffer they belong to.
#[derive(Debug, Clone, Copy, PartialEq, Eq)]
pub enum EngineReply<'a> {
    /// The call gives nothing back.
    Nothing,
    /// A status code.
    Status { status: i32 },
    /// A yes or a no.
    Flag { flag: bool },
    /// A handle that the engine gave out, with the status of the call.
    Handle { status: i32, handle: u64 },
    /// A value, with the status of the call.
    Value { status: i32, data: &'a [u8] },
    /// The record under a cursor.
    Record { key: &'a [u8], value: &'a [u8] },
}

/// An engine answer over mathematical byte sequences.
pub ghost enum ReplyModel {
    Nothing,
    Status { status: i32 },
    Flag { flag: bool },
    Handle { status: i32, handle: u64 },
    Value { status: i32, data: Seq<u8> },
    Record { key: Seq<u8>, value: Seq<u8> },
}

impl<'a> View for EngineReply<'a> {
    type V = ReplyModel;

    open spec fn view(&self) -> ReplyModel {
        match *self {
            EngineReply::Nothing => ReplyModel::Nothing,
            EngineReply::Status { status } => ReplyModel::Status { status },
            EngineReply::Flag { flag } => ReplyModel::Flag { flag },
            EngineReply::Handle { status, handle } => ReplyModel::Handle { status, handle },
            EngineReply::Value { status, data } => ReplyModel::Value { status, data: data@ },
            EngineReply::Record { key, value } => ReplyModel::Record { key: key@, value: value@ },
        }
    }
}

} // verus!
