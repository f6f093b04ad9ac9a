//! The lookup protocol: a result buffer is set up, the key is looked up
//! into it, the value is copied out, and the buffer is released on every
//! path before anything is reported.
use vstd::prelude::*;
use crate::engine::{CallModel, EngineCall, EngineReply, ReplyModel};
use crate::slice::{copy_bytes, create_splinter_slice};
use crate::status::SplinterError;

verus! {

/// What a lookup found: nothing, or an owned copy of the value.
#[derive(Debug, Clone, PartialEq, Eq)]
pub enum LookupResult {
    NotFound,
    Found(Vec<u8>),
}

impl View for LookupResult {
    type V = Option<Seq<u8>>;

    open spec fn view(&self) -> Option<Seq<u8>> {
        match *self {
            LookupResult::NotFound => None,
            LookupResult::Found(v) => Some(v@),
        }
    }
}

/// The outcome of a lookup over mathematical values: `Ok(None)` where the
/// key is absent, `Ok(Some(value))` where it is present.
pub type LookupOutcome = Result<Option<Seq<u8>>, SplinterError>;

/// The view of an outcome.
pub open spec fn outcome_view(r: Result<LookupResult, SplinterError>) -> LookupOutcome {
    match r {
        Ok(found) => Ok(found@),
        Err(e) => Err(e),
    }
}

/// Where a lookup stands.
#[derive(Debug, Clone, Copy, PartialEq, Eq, Structural)]
pub enum LookupPhase {
    /// Nothing was issued yet.
    Start,
    /// The result buffer is being set up.
    Reserving,
    /// The lookup was issued; its status is awaited.
    Querying,
    /// The found flag is awaited.
    Probing,
    /// The value is awaited.
    Extracting,
    /// The release of the result buffer was issued.
    Releasing,
    /// The outcome was reported.
    Finished,
}

/// One step of a protocol: the next call to make, or the end.
#[derive(Debug, PartialEq, Eq)]
pub enum LookupStep<'a> {
    Call(EngineCall<'a>),
    Done(Result<LookupResult, SplinterError>),
}

/// A step over mathematical values.
pub ghost enum LookupStepModel {
    Call(CallModel),
    Done(LookupOutcome),
}

impl<'a> View for LookupStep<'a> {
    type V = LookupStepModel;

    open spec fn view(&self) -> LookupStepModel {
        match *self {
            LookupStep::Call(c) => LookupStepModel::Call(c@),
            LookupStep::Done(r) => LookupStepModel::Done(outcome_view(r)),
        }
    }
}

/// A lookup in progress.
#[derive(Debug)]
pub struct LookupProtocol<'a> {
    family: u64,
    key: &'a [u8],
    phase: LookupPhase,
    outcome: Result<LookupResult, SplinterError>,
}

/// A lookup in progress, over mathematical values.
pub ghost struct LookupModel {
    pub family: u64,
    pub key: Seq<u8>,
    pub phase: LookupPhase,
    pub outcome: LookupOutcome,
}

impl<'a> View for LookupProtocol<'a> {
    type V = LookupModel;

    closed spec fn view(&self) -> LookupModel {
        LookupModel {
            family: self.family,
            key: self.key@,
            phase: self.phase,
            outcome: outcome_view(self.outcome),
        }
    }
}

/// A lookup of `key` in `family` of which nothing was issued yet.
pub open spec fn lookup_start(family: u64, key: Seq<u8>) -> LookupModel {
    LookupModel { family, key, phase: LookupPhase::Start, outcome: Ok(None) }
}

/// What a lookup reports, given the status of the lookup call, the found
/// flag, and the status and bytes of the value call. A bad status of the
/// lookup is reported whatever the rest says; an absent key is reported
/// without looking at a value.
pub open spec fn lookup_outcome(
    status: i32,
    found: bool,
    value_status: i32,
    value: Seq<u8>,
) -> LookupOutcome {
    if status != 0 {
        Err(SplinterError::Engine { code: status })
    } else if !found {
        Ok(None)
    } else if value_status != 0 {
        Err(SplinterError::Engine { code: value_status })
    } else {
        Ok(Some(value))
    }
}

/// The lookup with the release of its buffer issued and `outcome` kept
/// for the report.
pub open spec fn releasing(m: LookupModel, outcome: LookupOutcome) -> (LookupModel, LookupStepModel) {
    (
        LookupModel { phase: LookupPhase::Releasing, outcome, ..m },
        LookupStepModel::Call(CallModel::LookupResultDeinit),
    )
}

/// The lookup moved to `phase` with `call` issued.
pub open spec fn issuing(m: LookupModel, phase: LookupPhase, call: CallModel) -> (
    LookupModel,
    LookupStepModel,
) {
    (LookupModel { phase, ..m }, LookupStepModel::Call(call))
}

/// The transition of the lookup protocol: from where the lookup stands
/// and the answer to the call issued last, to where it stands next and
/// what it asks for or reports.
pub open spec fn lookup_step(m: LookupModel, reply: ReplyModel) -> (LookupModel, LookupStepModel) {
    match m.phase {
        LookupPhase::Start => issuing(
            m,
            LookupPhase::Reserving,
            CallModel::LookupResultInit { family: m.family },
        ),
        LookupPhase::Reserving => issuing(
            m,
            LookupPhase::Querying,
            CallModel::Lookup { family: m.family, key: Some(m.key) },
        ),
        LookupPhase::Querying => match reply {
            ReplyModel::Status { status } => if status == 0 {
                issuing(m, LookupPhase::Probing, CallModel::LookupFound)
            } else {
                releasing(m, Err(SplinterError::Engine { code: status }))
            },
            _ => releasing(m, Err(SplinterError::Protocol)),
        },
        LookupPhase::Probing => match reply {
            ReplyModel::Flag { flag } => if flag {
                issuing(m, LookupPhase::Extracting, CallModel::LookupResultValue)
            } else {
                releasing(m, Ok(None))
            },
            _ => releasing(m, Err(SplinterError::Protocol)),
        },
        LookupPhase::Extracting => match reply {
            ReplyModel::Value { status, data } => if status == 0 {
                releasing(m, Ok(Some(data)))
            } else {
                releasing(m, Err(SplinterError::Engine { code: status }))
            },
            _ => releasing(m, Err(SplinterError::Protocol)),
        },
        LookupPhase::Releasing => (
            LookupModel { phase: LookupPhase::Finished, ..m },
            LookupStepModel::Done(m.outcome),
        ),
        LookupPhase::Finished => (m, LookupStepModel::Done(m.outcome)),
    }
}

/// A copy of an outcome.
fn copy_outcome(r: &Result<LookupResult, SplinterError>) -> (c: Result<LookupResult, SplinterError>)
    ensures
        outcome_view(c) == outcome_view(*r),
{
    match r {
        Ok(LookupResult::NotFound) => Ok(LookupResult::NotFound),
        Ok(LookupResult::Found(v)) => Ok(LookupResult::Found(copy_bytes(v.as_slice()))),
        Err(e) => Err(*e),
    }
}

impl<'a> LookupProtocol<'a> {
    /// A lookup of `key` in `family` of which nothing was issued yet.
    pub fn new(family: u64, key: &'a [u8]) -> (p: LookupProtocol<'a>)
        ensures
            p@ == lookup_start(family, key@),
    {
        LookupProtocol {
            family,
            key,
            phase: LookupPhase::Start,
            outcome: Ok(LookupResult::NotFound),
        }
    }

    /// Whether the outcome was reported.
    pub fn is_finished(&self) -> (r: bool)
        ensures
            r == (self@.phase == LookupPhase::Finished),
    {
        self.phase == LookupPhase::Finished
    }

    fn release(&mut self, outcome: Result<LookupResult, SplinterError>) -> (s: LookupStep<'a>)
        ensures
            (final(self)@, s@) == releasing(old(self)@, outcome_view(outcome)),
            s matches LookupStep::Call(c) && c.wf(),
    {
        self.phase = LookupPhase::Releasing;
        self.outcome = outcome;
        LookupStep::Call(EngineCall::LookupResultDeinit)
    }

    /// Takes the answer to the call issued last (any answer, where none
    /// was issued yet) and gives the next call, or the outcome once the
    /// result buffer was released. The value is copied out of the
    /// engine's buffer into a vector of its own before the release is
    /// asked for, so nothing that is reported points into the buffer.
    pub fn step<'r>(&mut self, reply: EngineReply<'r>) -> (s: LookupStep<'a>)
        ensures
            (final(self)@, s@) == lookup_step(old(self)@, reply@),
            s matches LookupStep::Call(c) ==> c.wf(),
    {
        match self.phase {
            LookupPhase::Start => {
                self.phase = LookupPhase::Reserving;
                LookupStep::Call(EngineCall::LookupResultInit { family: self.family })
            },
            LookupPhase::Reserving => {
                self.phase = LookupPhase::Querying;
                LookupStep::Call(
                    EngineCall::Lookup {
                        family: self.family,
                        key: create_splinter_slice(self.key),
                    },
                )
            },
            LookupPhase::Querying => match reply {
                EngineReply::Status { status } => {
                    if status == 0 {
                        self.phase = LookupPhase::Probing;
                        LookupStep::Call(EngineCall::LookupFound)
                    } else {
                        self.release(Err(SplinterError::Engine { code: status }))
                    }
                },
                _ => self.release(Err(SplinterError::Protocol)),
            },
            LookupPhase::Probing => match reply {
                EngineReply::Flag { flag } => {
                    if flag {
                        self.phase = LookupPhase::Extracting;
                        LookupStep::Call(EngineCall::LookupResultValue)
                    } else {
                        self.release(Ok(LookupResult::NotFound))
                    }
                },
                _ => self.release(Err(SplinterError::Protocol)),
            },
            LookupPhase::Extracting => match reply {
                EngineReply::Value { status, data } => {
                    if status == 0 {
                        let value = copy_bytes(data);
                        self.release(Ok(LookupResult::Found(value)))
                    } else {
                        self.release(Err(SplinterError::Engine { code: status }))
                    }
                },
                _ => self.release(Err(SplinterError::Protocol)),
            },
            LookupPhase::Releasing => {
                self.phase = LookupPhase::Finished;
                LookupStep::Done(copy_outcome(&self.outcome))
            },
            LookupPhase::Finished => LookupStep::Done(copy_outcome(&self.outcome)),
        }
    }
}

} // verus!
