//! Decision logic of a sandboxed script-execution engine.
//!
//! One request hands the engine a script source, a JSON argument payload and a
//! wall-clock timeout. A worker thread creates a throwaway virtual-machine
//! isolate, installs the single host capability (`fetch`), compiles the source
//! into a callable, invokes it, drains the returned promise to settlement and
//! serializes the result, while the calling thread races the worker against
//! the deadline and a near-heap-limit callback cuts off runaway allocation.
//!
//! The virtual machine itself is unverified foreign code, so this crate holds
//! the engine's decisions as verified functions over plain values: the
//! per-stage pipeline state machine ([`pipeline`]), the timeout race
//! ([`guard`]), the heap-ceiling policy ([`limits`]), the host `fetch`
//! capability's result mapping ([`bridge`]) and the error vocabulary
//! ([`errors`]). The surrounding binary performs the virtual-machine and
//! network calls and feeds their outcomes to these functions as events.

pub mod bridge;
pub mod errors;
pub mod guard;
pub mod limits;
pub mod pipeline;
