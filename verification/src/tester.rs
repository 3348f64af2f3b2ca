//! What the duplex tester decides. It measures round trips through an
//! external relay by sending on one connection and receiving on a separately
//! accepted one. Its send leg is the one place in the toolkit with a retry
//! policy: the remote under test may not be listening yet, so the tester
//! polls once per fixed interval, logging each failed attempt, until a
//! connect succeeds. The measurement loop itself is the latency client's.

use vstd::prelude::*;

verus! {

/// How long the send leg waits between connect attempts, in seconds.
pub const RETRY_INTERVAL_SECS: u64 = 1;

/// The result of one connect attempt on the send leg.
#[derive(Clone, Copy, Debug, PartialEq, Eq, Structural)]
pub enum ConnectOutcome {
    Connected,
    Refused,
}

/// What the retry loop does after one attempt: start measuring, or log the
/// failed attempt, wait one interval, and try again.
#[derive(Clone, Copy, Debug, PartialEq, Eq, Structural)]
pub enum ConnectPlan {
    Proceed,
    WaitAndRetry,
}

/// The retry loop's decision as a function of the attempt's outcome.
pub open spec fn plan_of(outcome: ConnectOutcome) -> ConnectPlan {
    if outcome == ConnectOutcome::Connected {
        ConnectPlan::Proceed
    } else {
        ConnectPlan::WaitAndRetry
    }
}

/// One decision of the send leg's retry loop: proceed exactly when the
/// attempt connected, otherwise wait one interval and try again.
pub fn retry_connect_step(outcome: ConnectOutcome) -> (plan: ConnectPlan)
    ensures
        plan == plan_of(outcome),
        (plan == ConnectPlan::Proceed) == (outcome == ConnectOutcome::Connected),
{
    match outcome {
        ConnectOutcome::Connected => ConnectPlan::Proceed,
        ConnectOutcome::Refused => ConnectPlan::WaitAndRetry,
    }
}

/// Retry convergence: however many attempts were refused before the remote
/// began listening, every refused attempt gets a wait-and-retry plan (each
/// one observable in the log), and the first attempt that connects makes the
/// loop proceed at once — within one polling interval of the remote becoming
/// available.
pub proof fn lemma_retry_convergence(attempts: Seq<ConnectOutcome>, k: int)
    requires
        0 <= k < attempts.len(),
        attempts[k] == ConnectOutcome::Connected,
        forall|i: int| 0 <= i < k ==> attempts[i] == ConnectOutcome::Refused,
    ensures
        plan_of(attempts[k]) == ConnectPlan::Proceed,
        forall|i: int| 0 <= i < k ==> plan_of(attempts[i]) == ConnectPlan::WaitAndRetry,
{
}

} // verus!
