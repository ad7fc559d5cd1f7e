//! The conversion of a succinct attestation into a transferable one: a
//! remote job that is polled like a proving job, and whose result is
//! cross-validated against the succinct attestation as soon as it is there.

use vstd::prelude::*;
use crate::attest::{
    cross_checked, cross_validate, ConversionError, CrossValidation, SnarkReceipt, StarkSummary,
};
use crate::job::{
    is_running_report, after_events, lemma_status_sequence_decides, poll_step, prove_bonsai,
    status_running, status_succeeded, JobAction, JobState, PollEvent, PollPolicy, ProofJob,
    RemoteJobError, StatusReport,
};

verus! {

/// What one poll of the conversion service brought back.
#[derive(Clone, Debug, PartialEq, Eq)]
pub enum ConversionEvent {
    Report { status: String, error_msg: Option<String>, output: Option<SnarkReceipt> },
    TransportError,
}

/// What the owner of the conversion job does next.
#[derive(Clone, Debug, PartialEq, Eq)]
pub enum ConversionStep {
    /// Sleep for this many seconds, then poll again.
    Wait(u64),
    /// The job failed.
    Failed(RemoteJobError),
    /// The job succeeded, but its result cannot be cross-validated.
    Refused(SnarkReceipt, ConversionError),
    /// The job succeeded: the transferable attestation, and what
    /// cross-validation found.
    Done(SnarkReceipt, CrossValidation),
}

/// The event as the job's state machine sees it: a report is ready where it
/// carries an attestation.
pub open spec fn as_poll_event(event: ConversionEvent) -> PollEvent {
    match event {
        ConversionEvent::Report { status, error_msg, output } => PollEvent::Report(
            StatusReport { status, result_ready: output is Some, error_msg },
        ),
        ConversionEvent::TransportError => PollEvent::TransportError,
    }
}

/// The job and the step after one event of the conversion service.
pub open spec fn conversion_step(
    job: ProofJob,
    event: ConversionEvent,
    policy: PollPolicy,
    stark: StarkSummary,
) -> (ProofJob, ConversionStep) {
    let (next, action) = poll_step(job, as_poll_event(event), policy);
    match action {
        JobAction::Wait(secs) => (next, ConversionStep::Wait(secs)),
        JobAction::Fail(e) => (next, ConversionStep::Failed(e)),
        JobAction::Collect => match event {
            ConversionEvent::Report { output: Some(snark), .. } => match cross_checked(
                stark,
                snark,
            ) {
                Ok(found) => (next, ConversionStep::Done(snark, found)),
                Err(e) => (next, ConversionStep::Refused(snark, e)),
            },
            _ => (next, ConversionStep::Failed(RemoteJobError::MissingReceipt)),
        },
    }
}

/// Advances the conversion of a succinct attestation by one event of the
/// conversion service. While the service reports running, the job waits; a
/// status other than running and success fails it with the service's status
/// and message; on success the transferable attestation is cross-validated
/// against the succinct one.
pub fn stark2snark(
    job: &mut ProofJob,
    event: ConversionEvent,
    policy: &PollPolicy,
    stark: &StarkSummary,
) -> (step: ConversionStep)
    ensures
        (*final(job), step) == conversion_step(*old(job), event, *policy, *stark),
{
    match event {
        ConversionEvent::TransportError => {
            match prove_bonsai(job, PollEvent::TransportError, policy) {
                JobAction::Wait(secs) => ConversionStep::Wait(secs),
                JobAction::Fail(e) => ConversionStep::Failed(e),
                JobAction::Collect => ConversionStep::Failed(RemoteJobError::MissingReceipt),
            }
        },
        ConversionEvent::Report { status, error_msg, output } => {
            let report = StatusReport { status, result_ready: output.is_some(), error_msg };
            match prove_bonsai(job, PollEvent::Report(report), policy) {
                JobAction::Wait(secs) => ConversionStep::Wait(secs),
                JobAction::Fail(e) => ConversionStep::Failed(e),
                JobAction::Collect => match output {
                    Some(snark) => match cross_validate(stark, &snark) {
                        Ok(found) => ConversionStep::Done(snark, found),
                        Err(e) => ConversionStep::Refused(snark, e),
                    },
                    None => ConversionStep::Failed(RemoteJobError::MissingReceipt),
                },
            }
        },
    }
}

/// A conversion whose service reports running any number of times and then
/// a status that is neither running nor success fails with that status and
/// the service's message. If it then reports success with a transferable
/// attestation instead, the job ends succeeded and the attestation is
/// handed out with what cross-validation found.
pub proof fn lemma_conversion_sequence_decides(
    job: ProofJob,
    running: Seq<PollEvent>,
    status: String,
    error_msg: Option<String>,
    output: Option<SnarkReceipt>,
    policy: PollPolicy,
    stark: StarkSummary,
)
    requires
        job.is_polling(),
        forall|i: int| 0 <= i < running.len() ==> is_running_report(#[trigger] running[i]),
    ensures
        ({
            let before = after_events(job, running, policy);
            let (after, step) = conversion_step(
                before,
                ConversionEvent::Report { status, error_msg, output },
                policy,
                stark,
            );
            &&& (status@ != status_running() && status@ != status_succeeded() ==> after.state
                == JobState::Failed && step == ConversionStep::Failed(
                RemoteJobError::Exited { status, message: error_msg },
            ))
            &&& (status@ == status_succeeded() && output is None ==> after.state
                == JobState::Failed && step == ConversionStep::Failed(
                RemoteJobError::MissingReceipt,
            ))
            &&& (status@ == status_succeeded() && output is Some ==> after.state
                == JobState::Succeeded && (match cross_checked(stark, output->Some_0) {
                Ok(found) => step == ConversionStep::Done(output->Some_0, found),
                Err(e) => step == ConversionStep::Refused(output->Some_0, e),
            }))
        }),
{
    lemma_status_sequence_decides(
        job,
        running,
        StatusReport { status, result_ready: output is Some, error_msg },
        policy,
    );
}

} // verus!
