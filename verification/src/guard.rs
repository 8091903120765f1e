//! The timeout guard's side of the worker race.
//!
//! One request runs on a dedicated worker thread, which sends its outcome
//! over a one-shot channel; the calling thread waits on that channel up to
//! the request's deadline. The guard's decision is here: a report that
//! arrives in time is returned verbatim, and an elapsed deadline is the
//! timeout error — the worker is abandoned, never joined.

use vstd::prelude::*;
use crate::errors::EngineError;
use crate::limits::HeapLimits;
use crate::pipeline::Pipeline;

verus! {

/// What the wait on the worker's channel produced: the worker's own outcome,
/// or nothing before the deadline elapsed.
#[derive(Debug, PartialEq, Eq)]
pub enum WorkerReport {
    Finished(Result<String, EngineError>),
    NoReply,
}

/// The caller's answer for a given wait outcome.
pub open spec fn race_outcome(r: WorkerReport) -> Result<String, EngineError> {
    match r {
        WorkerReport::Finished(w) => w,
        WorkerReport::NoReply => Err(EngineError::Timeout),
    }
}

/// Decide the caller's answer once the wait on the worker's channel ends: a
/// worker outcome that arrived first is handed back verbatim, success or
/// failure alike; an elapsed deadline is the timeout error, immediately.
pub fn resolve_race(r: WorkerReport) -> (out: Result<String, EngineError>)
    ensures
        out == race_outcome(r),
        r matches WorkerReport::Finished(w) ==> out == w,
        r is NoReply ==> out == Err::<String, EngineError>(EngineError::Timeout),
{
    match r {
        WorkerReport::Finished(w) => w,
        WorkerReport::NoReply => Err(EngineError::Timeout),
    }
}

/// Timeout precedence: a promise that is still pending at every checkpoint
/// never halts the pipeline, so the worker never reports, and once the
/// deadline elapses the caller's answer is the timeout error — whatever heap
/// configuration the isolate was created with.
pub proof fn lemma_timeout_precedence(pending: nat, limits: HeapLimits)
    ensures
        Pipeline::Drain.after_pending_run(pending) == Pipeline::Drain,
        race_outcome(WorkerReport::NoReply) == Err::<String, EngineError>(EngineError::Timeout),
{
    crate::pipeline::lemma_pending_never_settles(Pipeline::Drain, pending);
}

} // verus!
