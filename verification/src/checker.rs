//! The checker's decision logic: classify a probe outcome and fold it
//! into the registry.
//!
//! One checker loop runs per target.  Each iteration probes the target's
//! URL, classifies what came back, appends the result to the shared
//! registry under its lock, and triggers persistence.  The probe itself
//! and the sleep between iterations are outside work; this module holds
//! the step from a finished probe to an updated registry.

use vstd::prelude::*;

use crate::domain::{CheckStatus, DomainStatus, HttpCode};
use crate::persist::Persistence;
use crate::registry::{appended_at, Registry};

verus! {

/// What one probe of a target produced, as handed in from the transport.
#[derive(Debug)]
pub enum ProbeOutcome {
    /// A response arrived, with this status code.
    Response(u16),
    /// The probe hit its deadline; the message describes the failure.
    TimedOut(String),
    /// The probe failed on the transport before its deadline.
    NetworkFailure(String),
}

/// Whether a status code indicates success (the 2xx class).
pub open spec fn is_success_code(code: u16) -> bool {
    200 <= code < 300
}

/// The check result that classification builds from a probe outcome:
/// a success code is Up and any other response is Down, with the code
/// classified for display; a timeout or transport failure is an Error
/// tagged as Timeout or NetworkError, carrying the failure message.
pub open spec fn spec_check_result(
    outcome: ProbeOutcome,
    timestamp_ms: i64,
    elapsed_ms: u64,
) -> CheckStatus {
    match outcome {
        ProbeOutcome::Response(code) => CheckStatus {
            timestamp_ms,
            status: if is_success_code(code) {
                DomainStatus::Up
            } else {
                DomainStatus::Down
            },
            http_code: Some(HttpCode::spec_from_status_code(code)),
            response_time_ms: Some(elapsed_ms),
            error_message: None,
        },
        ProbeOutcome::TimedOut(msg) => CheckStatus {
            timestamp_ms,
            status: DomainStatus::Error(msg),
            http_code: Some(HttpCode::Timeout),
            response_time_ms: None,
            error_message: Some(msg),
        },
        ProbeOutcome::NetworkFailure(msg) => CheckStatus {
            timestamp_ms,
            status: DomainStatus::Error(msg),
            http_code: Some(HttpCode::NetworkError),
            response_time_ms: None,
            error_message: Some(msg),
        },
    }
}

/// Build the check result for one finished probe.
pub fn build_check_result(outcome: ProbeOutcome, timestamp_ms: i64, elapsed_ms: u64) -> (r:
    CheckStatus)
    ensures
        r == spec_check_result(outcome, timestamp_ms, elapsed_ms),
{
    match outcome {
        ProbeOutcome::Response(code) => {
            let status = if 200 <= code && code < 300 {
                DomainStatus::Up
            } else {
                DomainStatus::Down
            };
            CheckStatus {
                timestamp_ms,
                status,
                http_code: Some(HttpCode::from_status_code(code)),
                response_time_ms: Some(elapsed_ms),
                error_message: None,
            }
        },
        ProbeOutcome::TimedOut(msg) => CheckStatus {
            timestamp_ms,
            status: DomainStatus::Error(msg.clone()),
            http_code: Some(HttpCode::Timeout),
            response_time_ms: None,
            error_message: Some(msg),
        },
        ProbeOutcome::NetworkFailure(msg) => CheckStatus {
            timestamp_ms,
            status: DomainStatus::Error(msg.clone()),
            http_code: Some(HttpCode::NetworkError),
            response_time_ms: None,
            error_message: Some(msg),
        },
    }
}

/// What one checker iteration concluded.
#[derive(Debug, Clone, Copy, PartialEq, Eq, Structural)]
pub enum CheckerStep {
    /// The result was appended to the target's history and persistence
    /// was triggered.
    Recorded,
    /// The target is no longer in the registry: its checker loop must
    /// stop.  Deletion removes the id, so this is the cancellation
    /// signal.
    TargetGone,
}

/// One checker iteration after its probe finished: classify the outcome,
/// append the result to the target's bounded history, and hand the
/// updated collection to the persistence sink.  A persist failure does
/// not disturb the registry; every outcome of the probe, failures
/// included, is recorded, so a failed probe never stops the loop.
pub fn run_check_step<P: Persistence>(
    registry: &mut Registry,
    sink: &mut P,
    id: u128,
    outcome: ProbeOutcome,
    timestamp_ms: i64,
    elapsed_ms: u64,
) -> (r: CheckerStep)
    requires
        old(registry).wf(),
    ensures
        final(registry).wf(),
        r == CheckerStep::TargetGone <==> forall|i: int|
            0 <= i < old(registry)@.len() ==> old(registry)@[i].id != id,
        r == CheckerStep::TargetGone ==> final(registry)@ == old(registry)@,
        r == CheckerStep::Recorded ==> exists|i: int|
            {
                &&& 0 <= i < old(registry)@.len()
                &&& old(registry)@[i].id == id
                &&& appended_at(
                    old(registry)@,
                    final(registry)@,
                    i,
                    spec_check_result(outcome, timestamp_ms, elapsed_ms),
                )
            },
{
    let result = build_check_result(outcome, timestamp_ms, elapsed_ms);
    match registry.append_result(id, result) {
        Ok(()) => {
            let _ = sink.persist(registry.domains_ref());
            CheckerStep::Recorded
        },
        Err(_) => CheckerStep::TargetGone,
    }
}

} // verus!
