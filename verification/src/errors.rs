//! The engine's error vocabulary.
//!
//! Every failure of one request is captured as a value of [`EngineError`] and
//! surfaced to the caller as a descriptive string; no failure crashes the
//! process. Each variant records the stage that failed, together with the
//! virtual machine's description of the fault where one exists.

use vstd::prelude::*;
use vstd::string::*;

verus! {

/// Which of the three ways the compile stage can fail: the source does not
/// parse, the script throws while it runs, or its completion value is not
/// callable.
#[derive(Clone, Copy, PartialEq, Eq, Structural, Debug)]
pub enum CompileFault {
    Parse,
    Eval,
    NotCallable,
}

/// One request's failure, as reported to the caller.
#[derive(Debug, PartialEq, Eq, Clone)]
pub enum EngineError {
    /// The source failed to parse, threw while evaluated, or did not evaluate
    /// to a callable. The string is the fault's description.
    Compile(CompileFault, String),
    /// The argument payload is not valid JSON.
    Argument,
    /// Invoking the callable threw; the string describes the thrown value.
    Call(String),
    /// The callable's return value is not an asynchronous value.
    NotAsync(String),
    /// The asynchronous value settled to rejection; the string describes the
    /// rejection reason.
    Rejected(String),
    /// The wall-clock deadline elapsed before the worker reported.
    Timeout,
}

/// The descriptive string an error is surfaced as.
pub open spec fn message_of(e: EngineError) -> Seq<char> {
    match e {
        EngineError::Compile(CompileFault::Parse, d) => "error compiling the script: "@ + d@,
        EngineError::Compile(CompileFault::Eval, d) => "error evaluating the script: "@ + d@,
        EngineError::Compile(CompileFault::NotCallable, d) => (
            "the script result is not a function: "@ + d@
        ),
        EngineError::Argument => "the argument payload is not valid JSON"@,
        EngineError::Call(d) => "error calling the function: "@ + d@,
        EngineError::NotAsync(d) => "the call result is not a promise: "@ + d@,
        EngineError::Rejected(d) => "promise rejected: "@ + d@,
        EngineError::Timeout => "timeout"@,
    }
}

impl EngineError {
    /// Render the error as the diagnostic string handed to the caller.
    pub fn describe(&self) -> (r: String)
        ensures
            r@ == message_of(*self),
    {
        match self {
            EngineError::Compile(CompileFault::Parse, d) => (
                String::from_str("error compiling the script: ").concat(d.as_str())
            ),
            EngineError::Compile(CompileFault::Eval, d) => (
                String::from_str("error evaluating the script: ").concat(d.as_str())
            ),
            EngineError::Compile(CompileFault::NotCallable, d) => (
                String::from_str("the script result is not a function: ").concat(d.as_str())
            ),
            EngineError::Argument => String::from_str("the argument payload is not valid JSON"),
            EngineError::Call(d) => (
                String::from_str("error calling the function: ").concat(d.as_str())
            ),
            EngineError::NotAsync(d) => (
                String::from_str("the call result is not a promise: ").concat(d.as_str())
            ),
            EngineError::Rejected(d) => String::from_str("promise rejected: ").concat(d.as_str()),
            EngineError::Timeout => String::from_str("timeout"),
        }
    }
}

/// A rendered error always carries its stage prefix: the description the
/// virtual machine supplied is appended to a fixed text for the failing
/// stage, never surfaced bare.
pub proof fn lemma_message_keeps_detail(fault: CompileFault, d: String)
    ensures
        message_of(EngineError::Compile(fault, d)).len() > d@.len(),
        message_of(EngineError::Rejected(d)).len() > d@.len(),
{
    reveal_strlit("error compiling the script: ");
    reveal_strlit("error evaluating the script: ");
    reveal_strlit("the script result is not a function: ");
    reveal_strlit("promise rejected: ");
}

} // verus!
