//! The range iterator: a cursor of the engine that is stepped and then
//! read. The engine places a fresh cursor on the first record, so the
//! first step reads without moving; every later step moves first.
use vstd::prelude::*;
use std::marker::PhantomData;
use crate::engine::{CallModel, EngineCall, EngineReply, ReplyModel};
use crate::family::SplinterColumnFamily;
use crate::status::SplinterError;

verus! {

/// The record that a cursor stands on: views of the key and the value
/// in memory that the engine owns. They are read through the iterator
/// and cannot be kept: what is to outlive the step is copied.
#[derive(Debug, PartialEq, Eq)]
pub struct IteratorResult<'a> {
    key: &'a [u8],
    value: &'a [u8],
}

impl<'a> View for IteratorResult<'a> {
    type V = (Seq<u8>, Seq<u8>);

    closed spec fn view(&self) -> (Seq<u8>, Seq<u8>) {
        (self.key@, self.value@)
    }
}

impl<'a> IteratorResult<'a> {
    /// The record's key, for as long as the record is borrowed.
    pub fn key<'b>(&'b self) -> (r: &'b [u8])
        ensures
            r@ == self@.0,
    {
        self.key
    }

    /// The record's value, for as long as the record is borrowed.
    pub fn value<'b>(&'b self) -> (r: &'b [u8])
        ensures
            r@ == self@.1,
    {
        self.value
    }
}

/// Where a step of the iterator stands.
#[derive(Debug, Clone, Copy, PartialEq, Eq, Structural)]
pub enum CursorPhase {
    /// No step is under way.
    Idle,
    /// The cursor was told to move on.
    Advancing,
    /// The cursor was asked whether it stands on a record.
    Validating,
    /// The cursor was asked for its terminal status.
    Concluding,
    /// The cursor was asked for its record.
    Reading,
    /// The walk is over: the cursor ran out, or a failure was reported.
    Finished,
}

/// One step of the iterator: the next call to make, or how the step
/// ended. `Done(Ok(true))` says that the iterator stands on a record,
/// `Done(Ok(false))` that the walk is over.
#[derive(Debug, PartialEq, Eq)]
pub enum NextStep<'a> {
    Call(EngineCall<'a>),
    Done(Result<bool, SplinterError>),
}

/// A step of the iterator over mathematical values.
pub ghost enum NextStepModel {
    Call(CallModel),
    Done(Result<bool, SplinterError>),
}

impl<'a> View for NextStep<'a> {
    type V = NextStepModel;

    open spec fn view(&self) -> NextStepModel {
        match *self {
            NextStep::Call(c) => NextStepModel::Call(c@),
            NextStep::Done(r) => NextStepModel::Done(r),
        }
    }
}

/// A cursor over a column family's records in ascending key order. It
/// borrows the family that it walks, so the family cannot be given up
/// while the iterator lives.
#[derive(Debug)]
pub struct RangeIterator<'a> {
    cursor: u64,
    state: Option<IteratorResult<'a>>,
    phase: CursorPhase,
    _parent_marker: PhantomData<&'a SplinterColumnFamily>,
}

/// An iterator over mathematical values: the cursor's handle, the record
/// it last read, and where its step stands.
pub ghost struct IteratorModel {
    pub cursor: u64,
    pub current: Option<(Seq<u8>, Seq<u8>)>,
    pub phase: CursorPhase,
}

impl<'a> View for RangeIterator<'a> {
    type V = IteratorModel;

    closed spec fn view(&self) -> IteratorModel {
        IteratorModel {
            cursor: self.cursor,
            current: match self.state {
                Some(r) => Some(r@),
                None => None,
            },
            phase: self.phase,
        }
    }
}

/// An iterator that has read nothing yet.
pub open spec fn iterator_start(cursor: u64) -> IteratorModel {
    IteratorModel { cursor, current: None, phase: CursorPhase::Idle }
}

/// The iterator with its walk ended and its record given up.
pub open spec fn finishing(m: IteratorModel, report: Result<bool, SplinterError>) -> (
    IteratorModel,
    NextStepModel,
) {
    (
        IteratorModel { current: None, phase: CursorPhase::Finished, ..m },
        NextStepModel::Done(report),
    )
}

/// The iterator moved to `phase` with `call` issued.
pub open spec fn asking(m: IteratorModel, phase: CursorPhase, call: CallModel) -> (
    IteratorModel,
    NextStepModel,
) {
    (IteratorModel { phase, ..m }, NextStepModel::Call(call))
}

/// What is reported for a cursor that stands on no record, given its
/// terminal status: the clean end of the walk, or the failure.
pub open spec fn exhaustion_report(status: i32) -> Result<bool, SplinterError> {
    if status == 0 {
        Ok(false)
    } else {
        Err(SplinterError::Engine { code: status })
    }
}

/// The transition of the iterator: from where it stands and the answer
/// to the call issued last, to where it stands next and what it asks for
/// or reports.
///
/// A step that starts with no record read asks at once whether the
/// cursor stands on a record; one that starts with a record read moves
/// the cursor first. A cursor on a record is read, and the record
/// replaces the one held before. A cursor on no record is asked for its
/// status, which ends the walk. Once the walk is over every step reports
/// its end and asks the engine for nothing.
pub open spec fn next_step(m: IteratorModel, reply: ReplyModel) -> (IteratorModel, NextStepModel) {
    match m.phase {
        CursorPhase::Idle => if m.current is Some {
            asking(m, CursorPhase::Advancing, CallModel::IteratorNext { cursor: m.cursor })
        } else {
            asking(m, CursorPhase::Validating, CallModel::IteratorValid { cursor: m.cursor })
        },
        CursorPhase::Advancing => asking(
            m,
            CursorPhase::Validating,
            CallModel::IteratorValid { cursor: m.cursor },
        ),
        CursorPhase::Validating => match reply {
            ReplyModel::Flag { flag } => if flag {
                asking(m, CursorPhase::Reading, CallModel::IteratorGetCurrent { cursor: m.cursor })
            } else {
                asking(m, CursorPhase::Concluding, CallModel::IteratorStatus { cursor: m.cursor })
            },
            _ => finishing(m, Err(SplinterError::Protocol)),
        },
        CursorPhase::Concluding => match reply {
            ReplyModel::Status { status } => finishing(m, exhaustion_report(status)),
            _ => finishing(m, Err(SplinterError::Protocol)),
        },
        CursorPhase::Reading => match reply {
            ReplyModel::Record { key, value } => (
                IteratorModel { current: Some((key, value)), phase: CursorPhase::Idle, ..m },
                NextStepModel::Done(Ok(true)),
            ),
            _ => finishing(m, Err(SplinterError::Protocol)),
        },
        CursorPhase::Finished => (m, NextStepModel::Done(Ok(false))),
    }
}

impl<'a> RangeIterator<'a> {
    /// An iterator over a cursor that the engine has just set up. It has
    /// read nothing yet.
    pub fn new(cf_iter: u64) -> (it: RangeIterator<'a>)
        ensures
            it@ == iterator_start(cf_iter),
    {
        RangeIterator {
            cursor: cf_iter,
            state: None,
            phase: CursorPhase::Idle,
            _parent_marker: PhantomData,
        }
    }

    fn finish(&mut self, report: Result<bool, SplinterError>) -> (s: NextStep<'static>)
        ensures
            (final(self)@, s@) == finishing(old(self)@, report),
            !(s is Call),
    {
        self.state = None;
        self.phase = CursorPhase::Finished;
        NextStep::Done(report)
    }

    /// Takes the answer to the call issued last (any answer, where no
    /// step is under way) and gives the next call, or the end of the
    /// step.
    pub fn next(&mut self, reply: EngineReply<'a>) -> (s: NextStep<'static>)
        ensures
            (final(self)@, s@) == next_step(old(self)@, reply@),
            s matches NextStep::Call(c) ==> c.wf(),
    {
        match self.phase {
            CursorPhase::Idle => {
                if self.state.is_some() {
                    self.phase = CursorPhase::Advancing;
                    NextStep::Call(EngineCall::IteratorNext { cursor: self.cursor })
                } else {
                    self.phase = CursorPhase::Validating;
                    NextStep::Call(EngineCall::IteratorValid { cursor: self.cursor })
                }
            },
            CursorPhase::Advancing => {
                self.phase = CursorPhase::Validating;
                NextStep::Call(EngineCall::IteratorValid { cursor: self.cursor })
            },
            CursorPhase::Validating => match reply {
                EngineReply::Flag { flag } => {
                    if flag {
                        self.phase = CursorPhase::Reading;
                        NextStep::Call(EngineCall::IteratorGetCurrent { cursor: self.cursor })
                    } else {
                        self.phase = CursorPhase::Concluding;
                        NextStep::Call(EngineCall::IteratorStatus { cursor: self.cursor })
                    }
                },
                _ => self.finish(Err(SplinterError::Protocol)),
            },
            CursorPhase::Concluding => match reply {
                EngineReply::Status { status } => {
                    if status == 0 {
                        self.finish(Ok(false))
                    } else {
                        self.finish(Err(SplinterError::Engine { code: status }))
                    }
                },
                _ => self.finish(Err(SplinterError::Protocol)),
            },
            CursorPhase::Reading => match reply {
                EngineReply::Record { key, value } => {
                    self.state = Some(IteratorResult { key, value });
                    self.phase = CursorPhase::Idle;
                    NextStep::Done(Ok(true))
                },
                _ => self.finish(Err(SplinterError::Protocol)),
            },
            CursorPhase::Finished => NextStep::Done(Ok(false)),
        }
    }

    /// The record that the last step read, borrowed from the iterator:
    /// it cannot be held across the next step. There is none before the
    /// first step and none once the walk is over.
    pub fn current<'b>(&'b self) -> (r: Option<&'b IteratorResult<'a>>)
        ensures
            match r {
                Some(rec) => self@.current == Some(rec@),
                None => self@.current is None,
            },
    {
        self.state.as_ref()
    }

    /// Whether the walk is over.
    pub fn is_finished(&self) -> (r: bool)
        ensures
            r == (self@.phase == CursorPhase::Finished),
    {
        self.phase == CursorPhase::Finished
    }

    /// Gives the iterator up. The call that comes back releases the
    /// cursor; since the iterator is consumed, it is issued once.
    pub fn close(self) -> (c: EngineCall<'static>)
        ensures
            c@ == (CallModel::IteratorDeinit { cursor: self@.cursor }),
            c.wf(),
    {
        EngineCall::IteratorDeinit { cursor: self.cursor }
    }
}

} // verus!
