//! The compile → decode → invoke → drain pipeline of one request.
//!
//! One request runs through five stages, strictly in order and entirely inside
//! one throwaway isolate: compile the source into a callable, decode the JSON
//! argument payload, invoke the callable, drain its returned promise to
//! settlement, and report. The virtual machine performs each stage's work; the
//! [`Pipeline`] state machine here holds the engine's side of it — which stage
//! comes next, and how each stage's outcome maps to the next state or to the
//! final answer. The worker drives the machine by asking [`Pipeline::next_action`]
//! and feeding back the event the virtual machine produced.

use vstd::prelude::*;
use crate::errors::{CompileFault, EngineError};

verus! {

/// What the virtual machine reports for the compile stage: the script's
/// source failed to parse, the script threw while it ran, its completion
/// value is not callable, or a callable was obtained. Each failure carries
/// the virtual machine's description of the exception or the value.
#[derive(Debug, PartialEq, Eq, Clone)]
pub enum CompileEvent {
    ParseFailed(String),
    EvalThrew(String),
    NotCallable(String),
    Callable,
}

/// What decoding the argument payload as JSON reports.
#[derive(Clone, Copy, PartialEq, Eq, Structural, Debug)]
pub enum ArgsEvent {
    Malformed,
    Parsed,
}

/// What invoking the compiled callable reports: the call threw, the return
/// value is not a promise, or a promise was obtained.
#[derive(Debug, PartialEq, Eq, Clone)]
pub enum CallEvent {
    Threw(String),
    NotPromise(String),
    Promise,
}

/// A fulfilled settlement value, as the virtual machine renders it: whether
/// the value is a structured object, its JSON serialization, and its direct
/// stringification. Which rendering becomes the answer is the engine's
/// decision ([`serialized`]), not the virtual machine's.
#[derive(Debug, PartialEq, Eq, Clone)]
pub struct FulfilledValue {
    pub is_object: bool,
    pub json_repr: String,
    pub direct_repr: String,
}

/// What one microtask checkpoint of the drain stage reports: the promise is
/// still pending, fulfilled with a value, or rejected with a reason.
#[derive(Debug, PartialEq, Eq, Clone)]
pub enum PromiseEvent {
    Pending,
    Fulfilled(FulfilledValue),
    Rejected(String),
}

/// The work the worker must perform next to advance the pipeline.
#[derive(Clone, Copy, PartialEq, Eq, Structural, Debug)]
pub enum Action {
    CompileScript,
    ParseArguments,
    CallFunction,
    PumpMicrotasks,
    Report,
}

/// The state of one request's pipeline. A request starts at `Compile` and
/// moves through the stages strictly in order; every failure, and the final
/// settlement, halts the machine at `Done` with the answer for the caller.
/// A halted pipeline accepts no further event: the one isolate of the request
/// is never reused.
#[derive(Debug, PartialEq, Eq)]
pub enum Pipeline {
    Compile,
    DecodeArgs,
    Invoke,
    Drain,
    Done(Result<String, EngineError>),
}

/// The rendering of a fulfilled value that becomes the caller's answer: the
/// JSON serialization for a structured object, the direct stringification for
/// a primitive.
pub open spec fn serialized(v: FulfilledValue) -> String {
    if v.is_object {
        v.json_repr
    } else {
        v.direct_repr
    }
}

impl Pipeline {
    /// The state a fresh request starts in.
    pub open spec fn init() -> Pipeline {
        Pipeline::Compile
    }

    /// The state after the compile stage reports `ev`. Any of the three
    /// compile faults halts the pipeline with a compile error carrying the
    /// fault's description; a callable advances to argument decoding.
    pub open spec fn after_compile(self, ev: CompileEvent) -> Pipeline
        recommends
            self is Compile,
    {
        match ev {
            CompileEvent::ParseFailed(d) => (
                Pipeline::Done(Err(EngineError::Compile(CompileFault::Parse, d)))
            ),
            CompileEvent::EvalThrew(d) => (
                Pipeline::Done(Err(EngineError::Compile(CompileFault::Eval, d)))
            ),
            CompileEvent::NotCallable(d) => (
                Pipeline::Done(Err(EngineError::Compile(CompileFault::NotCallable, d)))
            ),
            CompileEvent::Callable => Pipeline::DecodeArgs,
        }
    }

    /// The state after the argument payload was decoded: malformed JSON halts
    /// with an argument error before any call occurs; a decoded value
    /// advances to the invocation.
    pub open spec fn after_args(self, ev: ArgsEvent) -> Pipeline
        recommends
            self is DecodeArgs,
    {
        match ev {
            ArgsEvent::Malformed => Pipeline::Done(Err(EngineError::Argument)),
            ArgsEvent::Parsed => Pipeline::Invoke,
        }
    }

    /// The state after the invocation reports `ev`: a thrown exception halts
    /// with a call error, a non-promise return value halts because the result
    /// must be asynchronous, and a promise advances to the drain stage.
    pub open spec fn after_call(self, ev: CallEvent) -> Pipeline
        recommends
            self is Invoke,
    {
        match ev {
            CallEvent::Threw(d) => Pipeline::Done(Err(EngineError::Call(d))),
            CallEvent::NotPromise(d) => Pipeline::Done(Err(EngineError::NotAsync(d))),
            CallEvent::Promise => Pipeline::Drain,
        }
    }

    /// The state after one microtask checkpoint: a pending promise leaves the
    /// pipeline exactly where it was (the drain stage never bounds itself —
    /// only the timeout guard or the heap ceiling cuts it off), fulfillment
    /// halts with the serialized value, rejection halts with the reason.
    pub open spec fn after_promise(self, ev: PromiseEvent) -> Pipeline
        recommends
            self is Drain,
    {
        match ev {
            PromiseEvent::Pending => self,
            PromiseEvent::Fulfilled(v) => Pipeline::Done(Ok(serialized(v))),
            PromiseEvent::Rejected(d) => Pipeline::Done(Err(EngineError::Rejected(d))),
        }
    }

    /// The state after `n` consecutive checkpoints that all found the promise
    /// still pending.
    pub open spec fn after_pending_run(self, n: nat) -> Pipeline
        decreases n,
    {
        if n == 0 {
            self
        } else {
            self.after_pending_run((n - 1) as nat).after_promise(PromiseEvent::Pending)
        }
    }

    /// The work the worker must perform next in state `self`.
    pub open spec fn action_of(self) -> Action {
        match self {
            Pipeline::Compile => Action::CompileScript,
            Pipeline::DecodeArgs => Action::ParseArguments,
            Pipeline::Invoke => Action::CallFunction,
            Pipeline::Drain => Action::PumpMicrotasks,
            Pipeline::Done(_) => Action::Report,
        }
    }

    /// Start the pipeline of one fresh request.
    pub fn new() -> (p: Pipeline)
        ensures
            p == Pipeline::init(),
    {
        Pipeline::Compile
    }

    /// Which work the worker must perform next.
    pub fn next_action(&self) -> (a: Action)
        ensures
            a == self.action_of(),
    {
        match self {
            Pipeline::Compile => Action::CompileScript,
            Pipeline::DecodeArgs => Action::ParseArguments,
            Pipeline::Invoke => Action::CallFunction,
            Pipeline::Drain => Action::PumpMicrotasks,
            Pipeline::Done(_) => Action::Report,
        }
    }

    /// Whether the pipeline has halted with an answer.
    pub fn is_done(&self) -> (b: bool)
        ensures
            b == (self is Done),
    {
        match self {
            Pipeline::Done(_) => true,
            _ => false,
        }
    }

    /// Feed the compile stage's outcome.
    pub fn on_compile(&mut self, ev: CompileEvent)
        requires
            *old(self) is Compile,
        ensures
            *final(self) == old(self).after_compile(ev),
    {
        *self = match ev {
            CompileEvent::ParseFailed(d) => (
                Pipeline::Done(Err(EngineError::Compile(CompileFault::Parse, d)))
            ),
            CompileEvent::EvalThrew(d) => (
                Pipeline::Done(Err(EngineError::Compile(CompileFault::Eval, d)))
            ),
            CompileEvent::NotCallable(d) => (
                Pipeline::Done(Err(EngineError::Compile(CompileFault::NotCallable, d)))
            ),
            CompileEvent::Callable => Pipeline::DecodeArgs,
        };
    }

    /// Feed the argument-decoding stage's outcome.
    pub fn on_args(&mut self, ev: ArgsEvent)
        requires
            *old(self) is DecodeArgs,
        ensures
            *final(self) == old(self).after_args(ev),
    {
        *self = match ev {
            ArgsEvent::Malformed => Pipeline::Done(Err(EngineError::Argument)),
            ArgsEvent::Parsed => Pipeline::Invoke,
        };
    }

    /// Feed the invocation's outcome.
    pub fn on_call(&mut self, ev: CallEvent)
        requires
            *old(self) is Invoke,
        ensures
            *final(self) == old(self).after_call(ev),
    {
        *self = match ev {
            CallEvent::Threw(d) => Pipeline::Done(Err(EngineError::Call(d))),
            CallEvent::NotPromise(d) => Pipeline::Done(Err(EngineError::NotAsync(d))),
            CallEvent::Promise => Pipeline::Drain,
        };
    }

    /// Feed one microtask checkpoint's outcome.
    pub fn on_promise(&mut self, ev: PromiseEvent)
        requires
            *old(self) is Drain,
        ensures
            *final(self) == old(self).after_promise(ev),
    {
        match ev {
            PromiseEvent::Pending => {},
            PromiseEvent::Fulfilled(v) => {
                let answer = if v.is_object {
                    v.json_repr
                } else {
                    v.direct_repr
                };
                *self = Pipeline::Done(Ok(answer));
            },
            PromiseEvent::Rejected(d) => {
                *self = Pipeline::Done(Err(EngineError::Rejected(d)));
            },
        }
    }

    /// Hand the halted pipeline's answer to the caller.
    pub fn into_outcome(self) -> (r: Result<String, EngineError>)
        requires
            self is Done,
        ensures
            self == Pipeline::Done(r),
    {
        match self {
            Pipeline::Done(r) => r,
            _ => vstd::pervasive::unreached(),
        }
    }
}

/// A whole well-formed run: the source compiles to a callable, the arguments
/// decode, the invocation returns a promise, and the promise fulfills with
/// `v` after `pending` unsettled checkpoints.
pub open spec fn fulfilled_run(v: FulfilledValue, pending: nat) -> Pipeline {
    Pipeline::init().after_compile(CompileEvent::Callable).after_args(
        ArgsEvent::Parsed,
    ).after_call(CallEvent::Promise).after_pending_run(pending).after_promise(
        PromiseEvent::Fulfilled(v),
    )
}

/// A pending promise never advances the pipeline: however many checkpoints
/// find the promise unsettled, the state is unchanged. The drain stage is
/// bounded only from outside, by the timeout guard or the heap ceiling.
pub proof fn lemma_pending_never_settles(p: Pipeline, n: nat)
    ensures
        p.after_pending_run(n) == p,
    decreases n,
{
    if n > 0 {
        lemma_pending_never_settles(p, (n - 1) as nat);
    }
}

/// A well-formed run answers with exactly the serialization of the fulfilled
/// value, whatever number of checkpoints the settlement took: the JSON
/// rendering of a structured object, the direct stringification of a
/// primitive.
pub proof fn lemma_fulfilled_run_serializes(v: FulfilledValue, pending: nat)
    ensures
        fulfilled_run(v, pending) == Pipeline::Done(Ok::<String, EngineError>(serialized(v))),
{
    lemma_pending_never_settles(Pipeline::Drain, pending);
}

/// Source that fails to parse halts the pipeline at once with a compile
/// error: the answer is final, and the machine's next action is only to
/// report it, so no later stage's outcome is ever observed.
pub proof fn lemma_invalid_source_halts(d: String)
    ensures
        Pipeline::init().after_compile(CompileEvent::ParseFailed(d)) == Pipeline::Done(
            Err::<String, EngineError>(EngineError::Compile(CompileFault::Parse, d)),
        ),
        Pipeline::init().after_compile(CompileEvent::ParseFailed(d)).action_of() == Action::Report,
{
}

/// Source whose completion value is not callable is a compile error, exactly
/// as source that does not parse at all.
pub proof fn lemma_noncallable_is_compile_error(d: String)
    ensures
        Pipeline::init().after_compile(CompileEvent::NotCallable(d)) == Pipeline::Done(
            Err::<String, EngineError>(EngineError::Compile(CompileFault::NotCallable, d)),
        ),
{
}

/// A callable whose return value is not a promise halts the pipeline with the
/// not-asynchronous error once the invocation returns.
pub proof fn lemma_nonpromise_halts(d: String)
    ensures
        Pipeline::Invoke.after_call(CallEvent::NotPromise(d)) == Pipeline::Done(
            Err::<String, EngineError>(EngineError::NotAsync(d)),
        ),
{
}

/// Malformed argument JSON halts the pipeline before any invocation: the
/// argument error is the final answer and the next action is to report.
pub proof fn lemma_malformed_args_halt()
    ensures
        Pipeline::DecodeArgs.after_args(ArgsEvent::Malformed) == Pipeline::Done(
            Err::<String, EngineError>(EngineError::Argument),
        ),
        Pipeline::DecodeArgs.after_args(ArgsEvent::Malformed).action_of() == Action::Report,
{
}

/// A rejected promise halts the pipeline with the rejection reason's
/// description.
pub proof fn lemma_rejection_carries_reason(d: String, pending: nat)
    ensures
        Pipeline::Drain.after_pending_run(pending).after_promise(PromiseEvent::Rejected(d))
            == Pipeline::Done(Err::<String, EngineError>(EngineError::Rejected(d))),
{
    lemma_pending_never_settles(Pipeline::Drain, pending);
}

} // verus!
