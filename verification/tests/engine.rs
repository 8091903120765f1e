use sandbox_engine::bridge::{sandbox_fetch_value, FetchOutcome};
use sandbox_engine::errors::{CompileFault, EngineError};
use sandbox_engine::guard::{resolve_race, WorkerReport};
use sandbox_engine::limits::{on_near_heap_limit, HeapLimits};
use sandbox_engine::pipeline::{
    Action, ArgsEvent, CallEvent, CompileEvent, FulfilledValue, Pipeline, PromiseEvent,
};

fn drive_to_drain(args_ok: bool) -> Pipeline {
    let mut p = Pipeline::new();
    assert_eq!(p.next_action(), Action::CompileScript);
    p.on_compile(CompileEvent::Callable);
    assert_eq!(p.next_action(), Action::ParseArguments);
    if args_ok {
        p.on_args(ArgsEvent::Parsed);
        assert_eq!(p.next_action(), Action::CallFunction);
        p.on_call(CallEvent::Promise);
        assert_eq!(p.next_action(), Action::PumpMicrotasks);
    }
    p
}

fn fulfilled(is_object: bool, json_repr: &str, direct_repr: &str) -> PromiseEvent {
    PromiseEvent::Fulfilled(FulfilledValue {
        is_object,
        json_repr: json_repr.to_string(),
        direct_repr: direct_repr.to_string(),
    })
}

#[test]
fn fulfilled_primitive_is_stringified_directly() {
    let mut p = drive_to_drain(true);
    p.on_promise(fulfilled(false, "\"7\"", "7"));
    assert!(p.is_done());
    assert_eq!(p.into_outcome(), Ok("7".to_string()));
}

#[test]
fn fulfilled_object_is_json_serialized() {
    let mut p = drive_to_drain(true);
    p.on_promise(fulfilled(true, "{\"a\":1}", "[object Object]"));
    assert_eq!(p.into_outcome(), Ok("{\"a\":1}".to_string()));
}

#[test]
fn argument_array_rounds_trip() {
    // args "[1,2,3]" decode, and a callable fulfilling with its own argument
    // array settles to exactly that array's serialization.
    let mut p = drive_to_drain(true);
    p.on_promise(fulfilled(true, "[1,2,3]", "1,2,3"));
    assert_eq!(p.into_outcome(), Ok("[1,2,3]".to_string()));
}

#[test]
fn increment_scenario_returns_42() {
    // source "function(x){ return Promise.resolve(x+1); }", args "41":
    // the promise fulfills with the primitive 42.
    let mut p = drive_to_drain(true);
    p.on_promise(fulfilled(false, "42", "42"));
    assert_eq!(p.into_outcome(), Ok("42".to_string()));
}

#[test]
fn parse_failure_is_compile_error_and_halts() {
    let mut p = Pipeline::new();
    p.on_compile(CompileEvent::ParseFailed("SyntaxError: unexpected token".to_string()));
    assert!(p.is_done());
    assert_eq!(p.next_action(), Action::Report);
    assert_eq!(
        p.into_outcome(),
        Err(EngineError::Compile(
            CompileFault::Parse,
            "SyntaxError: unexpected token".to_string()
        ))
    );
}

#[test]
fn eval_throw_is_compile_error() {
    let mut p = Pipeline::new();
    p.on_compile(CompileEvent::EvalThrew("ReferenceError: x is not defined".to_string()));
    assert_eq!(
        p.into_outcome(),
        Err(EngineError::Compile(
            CompileFault::Eval,
            "ReferenceError: x is not defined".to_string()
        ))
    );
}

#[test]
fn noncallable_result_is_compile_error() {
    let mut p = Pipeline::new();
    p.on_compile(CompileEvent::NotCallable("42 is not a function".to_string()));
    assert!(p.is_done());
    assert_eq!(
        p.into_outcome(),
        Err(EngineError::Compile(
            CompileFault::NotCallable,
            "42 is not a function".to_string()
        ))
    );
}

#[test]
fn malformed_args_fail_before_any_call() {
    let mut p = drive_to_drain(false);
    p.on_args(ArgsEvent::Malformed);
    assert!(p.is_done());
    assert_eq!(p.next_action(), Action::Report);
    assert_eq!(p.into_outcome(), Err(EngineError::Argument));
}

#[test]
fn thrown_invocation_is_call_error() {
    let mut p = drive_to_drain(false);
    p.on_args(ArgsEvent::Parsed);
    p.on_call(CallEvent::Threw("Error: boom".to_string()));
    assert_eq!(p.into_outcome(), Err(EngineError::Call("Error: boom".to_string())));
}

#[test]
fn nonpromise_return_is_not_async_error() {
    let mut p = drive_to_drain(false);
    p.on_args(ArgsEvent::Parsed);
    p.on_call(CallEvent::NotPromise("expected a promise".to_string()));
    assert_eq!(
        p.into_outcome(),
        Err(EngineError::NotAsync("expected a promise".to_string()))
    );
}

#[test]
fn pending_promise_never_advances_the_pipeline() {
    let mut p = drive_to_drain(true);
    for _ in 0..1000 {
        p.on_promise(PromiseEvent::Pending);
        assert!(!p.is_done());
        assert_eq!(p.next_action(), Action::PumpMicrotasks);
    }
    p.on_promise(fulfilled(false, "null", "null"));
    assert_eq!(p.into_outcome(), Ok("null".to_string()));
}

#[test]
fn rejected_promise_carries_the_reason() {
    // source "function(){ return Promise.reject('bad'); }", args "null".
    let mut p = drive_to_drain(true);
    p.on_promise(PromiseEvent::Rejected("bad".to_string()));
    let out = p.into_outcome();
    assert_eq!(out, Err(EngineError::Rejected("bad".to_string())));
    let msg = out.unwrap_err().describe();
    assert!(msg.contains("bad"));
    assert_eq!(msg, "promise rejected: bad");
}

#[test]
fn silent_worker_times_out_whatever_the_heap_limits() {
    let small = HeapLimits::new(1, 1);
    let large = HeapLimits::new(1000000, usize::MAX);
    assert_eq!(resolve_race(WorkerReport::NoReply), Err(EngineError::Timeout));
    // the guard's answer does not consult the heap configuration at all
    assert_eq!((small.initial, large.max), (1, usize::MAX));
    assert_eq!(EngineError::Timeout.describe(), "timeout");
}

#[test]
fn worker_report_is_returned_verbatim() {
    assert_eq!(
        resolve_race(WorkerReport::Finished(Ok("ok".to_string()))),
        Ok("ok".to_string())
    );
    assert_eq!(
        resolve_race(WorkerReport::Finished(Err(EngineError::Argument))),
        Err(EngineError::Argument)
    );
}

#[test]
fn near_heap_limit_requests_termination_and_doubles() {
    let d = on_near_heap_limit(2000000);
    assert!(d.request_termination);
    assert_eq!(d.new_limit, 4000000);
    let d2 = on_near_heap_limit(d.new_limit);
    assert_eq!(d2.new_limit, 8000000);
    assert!(d2.request_termination);
}

#[test]
fn deployment_heap_limits() {
    let l = HeapLimits::deployment_default();
    assert_eq!(l.initial, 1000000);
    assert_eq!(l.max, 2000000);
    let custom = HeapLimits::new(500, 1000);
    assert_eq!((custom.initial, custom.max), (500, 1000));
}

#[test]
fn fetch_failure_yields_undefined_not_an_exception() {
    assert_eq!(sandbox_fetch_value(FetchOutcome::TransportFailed), None);
    assert_eq!(sandbox_fetch_value(FetchOutcome::Undecodable), None);
}

#[test]
fn fetch_success_yields_the_body_text() {
    assert_eq!(
        sandbox_fetch_value(FetchOutcome::Body("pong".to_string())),
        Some("pong".to_string())
    );
}

#[test]
fn error_messages_name_their_stage() {
    assert_eq!(
        EngineError::Compile(CompileFault::Parse, "x".to_string()).describe(),
        "error compiling the script: x"
    );
    assert_eq!(
        EngineError::Compile(CompileFault::Eval, "x".to_string()).describe(),
        "error evaluating the script: x"
    );
    assert_eq!(
        EngineError::Compile(CompileFault::NotCallable, "x".to_string()).describe(),
        "the script result is not a function: x"
    );
    assert_eq!(
        EngineError::Argument.describe(),
        "the argument payload is not valid JSON"
    );
    assert_eq!(
        EngineError::Call("x".to_string()).describe(),
        "error calling the function: x"
    );
    assert_eq!(
        EngineError::NotAsync("x".to_string()).describe(),
        "the call result is not a promise: x"
    );
}
