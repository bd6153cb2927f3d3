//! The probe's entry point.

use crate::cstr::c_string;
use crate::helper::{
    lemma_trace_print_call, trace_print_call, HelperCall, MESSAGE, MESSAGE_LEN, TRACE_PRINTK,
};
use vstd::prelude::*;

verus! {

/// The status that tells the dispatcher to proceed normally. The probe
/// returns no other.
pub const HANDLED: i32 = 0;

/// What the probe makes of one trace event: the request to put to the host,
/// and the status to hand back to the dispatcher.
#[derive(Clone, Copy, Debug, PartialEq, Eq)]
pub struct Outcome {
    pub call: HelperCall,
    pub status: i32,
}

/// The outcome of an event with context `ctx`. The context is not read:
/// the probe asks for its one trace print and reports the event as handled.
pub open spec fn outcome_of(ctx: usize) -> Outcome {
    Outcome { call: trace_print_call(), status: HANDLED }
}

/// Decides what to do about a trace event. `ctx` is the handle to the
/// caller's trace state; it is neither read nor kept.
///
/// The function calls nothing and changes nothing: the one request in the
/// outcome is for the caller to put to the host, once.
pub fn on_trace_event(ctx: usize) -> (outcome: Outcome)
    ensures
        outcome == outcome_of(ctx),
        outcome.status == 0,
        outcome.call.slot == 6,
        outcome.call.message@ == c_string("hello from rust\n"@),
        outcome.call.len == 17,
        outcome.call.well_formed(),
{
    proof {
        lemma_trace_print_call();
    }
    let _ = ctx;
    Outcome {
        call: HelperCall { slot: TRACE_PRINTK, message: MESSAGE, len: MESSAGE_LEN },
        status: HANDLED,
    }
}

/// Handles the entry of a `clone` system call: puts the probe's request to
/// `host`, drops the host's answer and returns zero.
///
/// `host` stands for the host's helper table and must accept the probe's
/// request. The last clause says that `host` has run on exactly that
/// request: an answer of its own came back. It is consumed by that call, so
/// it has not run twice.
#[allow(non_snake_case)]
pub fn kprobe__sys_clone<H>(ctx: usize, host: H) -> (status: i32) where
    H: FnOnce(HelperCall) -> i32,

    requires
        host.requires((trace_print_call(),)),
    ensures
        status == 0,
        exists|answer: i32| host.ensures((trace_print_call(),), answer),
{
    let outcome = on_trace_event(ctx);
    let _answer: i32 = host(outcome.call);
    outcome.status
}

/// Events do not interfere: whatever their contexts, two events have the
/// same outcome, and its status is zero.
pub proof fn lemma_outcome_ignores_context(first: usize, second: usize)
    ensures
        outcome_of(first) == outcome_of(second),
        outcome_of(first).status == 0,
        outcome_of(first).call == trace_print_call(),
{
}

} // verus!
