//! The interception step: what one invocation of the hook callback does.
//!
//! The callback runs on the thread that owns the system hooks, under the
//! host environment's control, and must return quickly. It does exactly two
//! things: it decides whether the raw notification is forwarded into the
//! handoff channel (best-effort, never blocking, never failing loudly), and
//! it passes the notification to the next hook in the chain — always, and
//! exactly once, whatever became of the forwarding.

use vstd::prelude::*;

verus! {

/// The reason word with which the host environment marks a notification the
/// hook is meant to act on; any other reason is only passed along the chain.
pub const HC_ACTION: i32 = 0;

/// What one invocation of the interception callback does.
#[derive(Clone, Copy, Debug, PartialEq, Eq, Structural)]
pub struct InterceptOutcome {
    /// Whether the raw notification is offered to the handoff channel.
    pub forward: bool,
    /// Whether the notification is passed to the next hook in the chain.
    pub chain: bool,
}

/// The interception decision: forward exactly the actionable notifications,
/// and only while the transfer endpoint stands ready; chain always.
pub open spec fn intercept_spec(code: i32, endpoint_ready: bool) -> InterceptOutcome {
    InterceptOutcome { forward: code == HC_ACTION && endpoint_ready, chain: true }
}

/// Decides what the interception callback does with a notification carrying
/// reason word `code`, given whether the transfer endpoint has been
/// initialized. The decision depends on nothing else — in particular not on
/// the worker or the user callback, which is what keeps the interception
/// path free of their latency.
pub fn intercept_step(code: i32, endpoint_ready: bool) -> (o: InterceptOutcome)
    ensures
        o == intercept_spec(code, endpoint_ready),
        o.chain,
        o.forward <==> (code == HC_ACTION && endpoint_ready),
{
    InterceptOutcome { forward: code == HC_ACTION && endpoint_ready, chain: true }
}

/// Chaining integrity: every interception decision passes the notification
/// to the next hook exactly once — forwarded and discarded notifications
/// chain alike.
pub proof fn lemma_chaining_integrity()
    ensures
        forall|code: i32, endpoint_ready: bool| intercept_spec(code, endpoint_ready).chain,
{
}

} // verus!
