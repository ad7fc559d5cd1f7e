//! The proof lifecycle: one job per submission to a proving backend, driven
//! from creation to a terminal state by the events that the backend reports.

use vstd::prelude::*;
use vstd::arithmetic::power2::*;
use vstd::arithmetic::mul::*;
use vstd::bytes::spec_u32_to_le_bytes;

verus! {

/// Where a job stands.
#[derive(Clone, Copy, Debug, PartialEq, Eq, Structural)]
pub enum JobState {
    Created,
    Submitted,
    Running,
    Succeeded,
    Failed,
}

/// The kind of backend that proves.
#[derive(Clone, Copy, Debug, PartialEq, Eq, Structural)]
pub enum BackendKind {
    /// In-process; synchronous, never polled.
    Local,
    /// A remote service; polled until it reports a terminal status.
    Remote,
}

/// One submission to a proving backend.
#[derive(Clone, Debug, PartialEq, Eq)]
pub struct ProofJob {
    pub state: JobState,
    pub backend: BackendKind,
    /// Identifiers of earlier attestations that this job depends on.
    pub assumptions: Vec<String>,
    /// Transport errors met in a row since the last status report.
    pub transport_errors: u32,
}

/// How a remote job is polled.
#[derive(Clone, Copy, Debug, PartialEq, Eq, Structural)]
pub struct PollPolicy {
    /// Seconds to wait between two polls.
    pub interval_secs: u64,
    /// Transport errors in a row that are tolerated before the job is
    /// given up.
    pub max_transport_errors: u32,
}

/// What a remote backend answers to a status request.
#[derive(Clone, Debug, PartialEq, Eq)]
pub struct StatusReport {
    pub status: String,
    /// Whether the answer carries the place of the finished attestation.
    pub result_ready: bool,
    pub error_msg: Option<String>,
}

/// What one poll brought back.
#[derive(Clone, Debug, PartialEq, Eq)]
pub enum PollEvent {
    Report(StatusReport),
    TransportError,
}

/// Why a remote job failed.
#[derive(Clone, Debug, PartialEq, Eq)]
pub enum RemoteJobError {
    /// The backend reported a status that is neither running nor success.
    Exited { status: String, message: Option<String> },
    /// The backend reported success without an attestation.
    MissingReceipt,
    /// More transport errors in a row than the policy tolerates.
    TransportFailures(u32),
    /// The job is not being polled: it was never submitted, runs locally,
    /// or has already reached a terminal state.
    NotPolling,
}

/// What the owner of the job does next.
#[derive(Clone, Debug, PartialEq, Eq)]
pub enum JobAction {
    /// Sleep for this many seconds, then poll again.
    Wait(u64),
    /// Fetch the attestation.
    Collect,
    /// Stop and report the failure.
    Fail(RemoteJobError),
}

/// What a remote backend is sent: the program image under its key, the
/// input as bytes, and the attestations that the job depends on.
#[derive(Clone, Debug, PartialEq, Eq)]
pub struct RemoteSubmission {
    pub image_key: String,
    pub image: Vec<u8>,
    pub input: Vec<u8>,
    pub assumptions: Vec<String>,
}

/// The segment size, as a power of two, that a local run uses.
pub const LOCAL_SEGMENT_LIMIT_PO2: u32 = 20;

/// Seconds between two polls of a remote job.
pub const POLL_INTERVAL_SECS: u64 = 15;

/// The bytes of the words, each word least significant byte first.
pub open spec fn words_le_bytes(words: Seq<u32>) -> Seq<u8> {
    Seq::new(4 * words.len(), |i: int| spec_u32_to_le_bytes(words[i / 4])[i % 4])
}

/// The bytes of the words, each word most significant byte first.
pub open spec fn words_be_bytes(words: Seq<u32>) -> Seq<u8> {
    Seq::new(4 * words.len(), |i: int| spec_u32_to_le_bytes(words[i / 4])[3 - i % 4])
}

/// Calls `bytemuck::cast_slice` to read the words as bytes, and copies
/// them. Each word gives four bytes, in the byte order of the machine:
/// which of the two orders it is, is not claimed.
#[verifier::external_body]
fn words_as_bytes(words: &[u32]) -> (bytes: Vec<u8>)
    ensures
        bytes@ == words_le_bytes(words@) || bytes@ == words_be_bytes(words@),
{
    bytemuck::cast_slice::<u32, u8>(words).to_vec()
}

/// Why a job cannot be submitted.
#[derive(Clone, Copy, Debug, PartialEq, Eq, Structural)]
pub enum SubmitError {
    /// The program has more than `MAX_ELF_BYTES` bytes.
    ImageTooLarge,
    /// The program is no executable that the proving system can load.
    InvalidImage,
    /// The input has more bytes than a 32-bit length can tell.
    InputTooLong,
}

/// The most bytes that a program may have: its loader counts in 32-bit
/// numbers.
pub const MAX_ELF_BYTES: usize = 0xF000_0000;

/// The key under which `risc0_zkvm` files a program: its image identity as
/// text, if the program can be loaded.
pub uninterp spec fn image_key_of(elf: Seq<u8>) -> Option<Seq<char>>;

/// Calls `risc0_zkvm::compute_image_id` and writes the identity as text.
/// The identity is a function of the program's bytes alone; it is named,
/// not spelled out.
#[verifier::external_body]
fn compute_image_key(elf: &[u8]) -> (r: Option<String>)
    requires
        elf@.len() <= MAX_ELF_BYTES,
    ensures
        r is Some <==> image_key_of(elf@) is Some,
        r is Some ==> r->Some_0@ == image_key_of(elf@)->Some_0,
{
    risc0_zkvm::compute_image_id(elf).ok().map(|id| id.to_string())
}

/// The words that stand for an input of bytes: their number, then each
/// byte as a word of its own.
pub open spec fn input_words(data: Seq<u8>) -> Seq<u32> {
    seq![data.len() as u32] + Seq::new(data.len(), |i: int| data[i] as u32)
}

/// Calls `risc0_zkvm::serde::to_vec` on a vector of bytes, which writes the
/// length as one word and then one word for each byte.
#[verifier::external_body]
fn serialize_bytes(data: &Vec<u8>) -> (r: Option<Vec<u32>>)
    requires
        data@.len() <= u32::MAX,
    ensures
        r is Some,
        r->Some_0@ == input_words(data@),
{
    risc0_zkvm::serde::to_vec(data).ok()
}

/// Encodes an input of bytes as the words that the guest program reads.
pub fn encode_input(data: &Vec<u8>) -> (r: Result<Vec<u32>, SubmitError>)
    ensures
        data@.len() <= u32::MAX ==> r is Ok && r->Ok_0@ == input_words(data@),
        data@.len() > u32::MAX ==> r == Err::<Vec<u32>, SubmitError>(SubmitError::InputTooLong),
{
    if data.len() > 0xFFFF_FFFF {
        return Err(SubmitError::InputTooLong);
    }
    match serialize_bytes(data) {
        Some(words) => Ok(words),
        None => Err(SubmitError::InputTooLong),
    }
}

/// What is sent for a program whose key is known.
pub fn submission_for(
    image_key: Option<String>,
    elf: Vec<u8>,
    input: Vec<u8>,
    assumptions: Vec<String>,
) -> (r: Result<RemoteSubmission, SubmitError>)
    ensures
        image_key is Some ==> r == Ok::<RemoteSubmission, SubmitError>(
            RemoteSubmission { image_key: image_key->Some_0, image: elf, input, assumptions },
        ),
        image_key is None ==> r == Err::<RemoteSubmission, SubmitError>(SubmitError::InvalidImage),
{
    match image_key {
        Some(key) => Ok(RemoteSubmission { image_key: key, image: elf, input, assumptions }),
        None => Err(SubmitError::InvalidImage),
    }
}

/// Puts together what a remote backend is sent for one job: the program
/// under the key of its image identity, the input words as bytes, and the
/// assumptions.
pub fn remote_submission(elf: Vec<u8>, encoded_input: &Vec<u32>, assumptions: Vec<String>) -> (r:
    Result<RemoteSubmission, SubmitError>)
    ensures
        elf@.len() > MAX_ELF_BYTES ==> r == Err::<RemoteSubmission, SubmitError>(
            SubmitError::ImageTooLarge,
        ),
        elf@.len() <= MAX_ELF_BYTES && image_key_of(elf@) is None ==> r == Err::<
            RemoteSubmission,
            SubmitError,
        >(SubmitError::InvalidImage),
        elf@.len() <= MAX_ELF_BYTES && image_key_of(elf@) is Some ==> r is Ok && r->Ok_0.image_key@
            == image_key_of(elf@)->Some_0 && r->Ok_0.image == elf && (r->Ok_0.input@
            == words_le_bytes(encoded_input@) || r->Ok_0.input@ == words_be_bytes(encoded_input@))
            && r->Ok_0.assumptions == assumptions,
{
    if elf.len() > MAX_ELF_BYTES {
        return Err(SubmitError::ImageTooLarge);
    }
    let image_key = compute_image_key(elf.as_slice());
    let input = words_as_bytes(encoded_input.as_slice());
    submission_for(image_key, elf, input, assumptions)
}

/// The cycles that a run of `segments` segments took at most, each segment
/// holding two to the power `segment_limit_po2` cycles; `None` where the
/// number does not fit in 64 bits.
pub fn rough_cycles(segments: usize, segment_limit_po2: u32) -> (r: Option<u64>)
    ensures
        r is Some <==> segments * pow2(segment_limit_po2 as nat) <= u64::MAX,
        r is Some ==> r->Some_0 == segments * pow2(segment_limit_po2 as nat),
{
    if segments == 0 {
        assert(0 * pow2(segment_limit_po2 as nat) == 0) by (nonlinear_arith);
        return Some(0);
    }
    let mut cycles: u64 = segments as u64;
    let mut i: u32 = 0;
    proof {
        lemma2_to64();
        assert(segments * pow2(0) == segments) by (nonlinear_arith)
            requires
                pow2(0) == 1,
        ;
    }
    while i < segment_limit_po2
        invariant
            i <= segment_limit_po2,
            segments > 0,
            cycles == segments * pow2(i as nat),
        decreases segment_limit_po2 - i,
    {
        proof {
            lemma_pow2_unfold((i + 1) as nat);
            assert(segments * (2 * pow2(i as nat)) == 2 * (segments * pow2(i as nat)))
                by (nonlinear_arith);
        }
        if cycles > u64::MAX / 2 {
            proof {
                if i + 1 < segment_limit_po2 {
                    lemma_pow2_strictly_increases((i + 1) as nat, segment_limit_po2 as nat);
                }
                lemma_mul_left_inequality(
                    segments as int,
                    pow2((i + 1) as nat) as int,
                    pow2(segment_limit_po2 as nat) as int,
                );
            }
            return None;
        }
        cycles = cycles * 2;
        i += 1;
    }
    Some(cycles)
}

/// Creates and submits the job for one proof request: on the remote
/// backend if `use_bonsai` is set, else in this process.
pub fn prove(use_bonsai: bool, assumptions: Vec<String>) -> (job: ProofJob)
    ensures
        job == (ProofJob {
            state: JobState::Submitted,
            backend: if use_bonsai {
                BackendKind::Remote
            } else {
                BackendKind::Local
            },
            assumptions,
            transport_errors: 0,
        }),
{
    let backend = if use_bonsai {
        BackendKind::Remote
    } else {
        BackendKind::Local
    };
    let mut job = ProofJob::new(backend, assumptions);
    job.submit();
    job
}

/// The status text of a job that is still running.
pub open spec fn status_running() -> Seq<char> {
    "RUNNING"@
}

/// The status text of a job that has succeeded.
pub open spec fn status_succeeded() -> Seq<char> {
    "SUCCEEDED"@
}

impl ProofJob {
    /// Whether the job awaits a status report.
    pub open spec fn is_polling(&self) -> bool {
        self.backend == BackendKind::Remote && (self.state == JobState::Submitted || self.state
            == JobState::Running)
    }

    /// Whether the job has reached a terminal state.
    pub open spec fn is_terminal(&self) -> bool {
        self.state == JobState::Succeeded || self.state == JobState::Failed
    }

    /// The job in another state, with another count of transport errors.
    pub open spec fn moved(self, state: JobState, transport_errors: u32) -> ProofJob {
        ProofJob { state, backend: self.backend, assumptions: self.assumptions, transport_errors }
    }

    /// A job that has not been submitted yet.
    pub fn new(backend: BackendKind, assumptions: Vec<String>) -> (job: ProofJob)
        ensures
            job == (ProofJob { state: JobState::Created, backend, assumptions, transport_errors: 0 }),
    {
        ProofJob { state: JobState::Created, backend, assumptions, transport_errors: 0 }
    }

    /// Marks a created job as submitted. Returns whether it was; a job in
    /// any other state is left as it is.
    pub fn submit(&mut self) -> (done: bool)
        ensures
            done == (old(self).state == JobState::Created),
            done ==> *final(self) == old(self).moved(JobState::Submitted, 0),
            !done ==> *final(self) == *old(self),
    {
        match self.state {
            JobState::Created => {
                self.state = JobState::Submitted;
                self.transport_errors = 0;
                true
            },
            _ => false,
        }
    }

    /// Ends a submitted local job: it succeeds or fails at once, without
    /// polling. Returns whether the job was a submitted local one; any
    /// other job is left as it is.
    pub fn finish_local(&mut self, proved: bool) -> (done: bool)
        ensures
            done == (old(self).backend == BackendKind::Local && old(self).state
                == JobState::Submitted),
            done ==> *final(self) == old(self).moved(
                if proved {
                    JobState::Succeeded
                } else {
                    JobState::Failed
                },
                old(self).transport_errors,
            ),
            !done ==> *final(self) == *old(self),
    {
        match (self.backend, self.state) {
            (BackendKind::Local, JobState::Submitted) => {
                self.state = if proved {
                    JobState::Succeeded
                } else {
                    JobState::Failed
                };
                true
            },
            _ => false,
        }
    }
}

/// The job and the action after one poll event.
///
/// A job that is not being polled stays as it is. A transport error counts
/// against the policy's budget, and a status report clears the count. A
/// running job waits, a succeeded one is collected, and every other status
/// fails the job with the backend's message.
pub open spec fn poll_step(job: ProofJob, event: PollEvent, policy: PollPolicy) -> (
    ProofJob,
    JobAction,
) {
    if !job.is_polling() {
        (job, JobAction::Fail(RemoteJobError::NotPolling))
    } else {
        match event {
            PollEvent::TransportError => if job.transport_errors >= policy.max_transport_errors {
                (
                    job.moved(JobState::Failed, job.transport_errors),
                    JobAction::Fail(RemoteJobError::TransportFailures(job.transport_errors)),
                )
            } else {
                (
                    job.moved(JobState::Running, (job.transport_errors + 1) as u32),
                    JobAction::Wait(policy.interval_secs),
                )
            },
            PollEvent::Report(report) => if report.status@ == status_running() {
                (job.moved(JobState::Running, 0), JobAction::Wait(policy.interval_secs))
            } else if report.status@ == status_succeeded() {
                if report.result_ready {
                    (job.moved(JobState::Succeeded, 0), JobAction::Collect)
                } else {
                    (
                        job.moved(JobState::Failed, 0),
                        JobAction::Fail(RemoteJobError::MissingReceipt),
                    )
                }
            } else {
                (
                    job.moved(JobState::Failed, 0),
                    JobAction::Fail(
                        RemoteJobError::Exited { status: report.status, message: report.error_msg },
                    ),
                )
            },
        }
    }
}

/// Whether a status text is the given literal.
fn status_is(status: &String, literal: &str) -> (r: bool)
    ensures
        r == (status@ == literal@),
{
    let wanted = literal.to_owned();
    *status == wanted
}

/// Advances a remote proving job by one poll event and says what to do
/// next.
pub fn prove_bonsai(job: &mut ProofJob, event: PollEvent, policy: &PollPolicy) -> (action:
    JobAction)
    ensures
        (*final(job), action) == poll_step(*old(job), event, *policy),
{
    let polling = match (job.backend, job.state) {
        (BackendKind::Remote, JobState::Submitted) => true,
        (BackendKind::Remote, JobState::Running) => true,
        _ => false,
    };
    if !polling {
        return JobAction::Fail(RemoteJobError::NotPolling);
    }
    match event {
        PollEvent::TransportError => {
            if job.transport_errors >= policy.max_transport_errors {
                job.state = JobState::Failed;
                JobAction::Fail(RemoteJobError::TransportFailures(job.transport_errors))
            } else {
                job.state = JobState::Running;
                job.transport_errors = job.transport_errors + 1;
                JobAction::Wait(policy.interval_secs)
            }
        },
        PollEvent::Report(report) => {
            job.transport_errors = 0;
            if status_is(&report.status, "RUNNING") {
                job.state = JobState::Running;
                JobAction::Wait(policy.interval_secs)
            } else if status_is(&report.status, "SUCCEEDED") {
                if report.result_ready {
                    job.state = JobState::Succeeded;
                    JobAction::Collect
                } else {
                    job.state = JobState::Failed;
                    JobAction::Fail(RemoteJobError::MissingReceipt)
                }
            } else {
                job.state = JobState::Failed;
                JobAction::Fail(
                    RemoteJobError::Exited { status: report.status, message: report.error_msg },
                )
            }
        },
    }
}

/// The job after a sequence of poll events, taken in order.
pub open spec fn after_events(job: ProofJob, events: Seq<PollEvent>, policy: PollPolicy) -> ProofJob
    decreases events.len(),
{
    if events.len() == 0 {
        job
    } else {
        after_events(poll_step(job, events[0], policy).0, events.drop_first(), policy)
    }
}

/// Whether an event is a report of a job that is still running.
pub open spec fn is_running_report(event: PollEvent) -> bool {
    event is Report && event->Report_0.status@ == status_running()
}

/// A polled job that hears nothing but running reports is still polled
/// afterwards, with the same backend and assumptions.
pub proof fn lemma_running_reports_keep_polling(
    job: ProofJob,
    events: Seq<PollEvent>,
    policy: PollPolicy,
)
    requires
        job.is_polling(),
        forall|i: int| 0 <= i < events.len() ==> is_running_report(#[trigger] events[i]),
    ensures
        after_events(job, events, policy).is_polling(),
        after_events(job, events, policy).assumptions == job.assumptions,
        events.len() > 0 ==> after_events(job, events, policy) == job.moved(JobState::Running, 0),
    decreases events.len(),
{
    if events.len() > 0 {
        let next = poll_step(job, events[0], policy).0;
        let rest = events.drop_first();
        assert(is_running_report(events[0]));
        assert forall|i: int| 0 <= i < rest.len() implies is_running_report(#[trigger] rest[i]) by {
            assert(rest[i] == events[i + 1]);
        }
        lemma_running_reports_keep_polling(next, rest, policy);
    }
}

/// A polled job whose backend reports running any number of times and then
/// success with an attestation ends succeeded, and the attestation is
/// collected. If the last report is any other status but running, the job
/// ends failed with the backend's status and message.
pub proof fn lemma_status_sequence_decides(
    job: ProofJob,
    running: Seq<PollEvent>,
    last: StatusReport,
    policy: PollPolicy,
)
    requires
        job.is_polling(),
        forall|i: int| 0 <= i < running.len() ==> is_running_report(#[trigger] running[i]),
    ensures
        ({
            let before = after_events(job, running, policy);
            let (after, action) = poll_step(before, PollEvent::Report(last), policy);
            &&& after == after_events(job, running.push(PollEvent::Report(last)), policy)
            &&& (last.status@ == status_succeeded() && last.result_ready ==> after.state
                == JobState::Succeeded && action == JobAction::Collect)
            &&& (last.status@ == status_succeeded() && !last.result_ready ==> after.state
                == JobState::Failed && action == JobAction::Fail(RemoteJobError::MissingReceipt))
            &&& (last.status@ != status_succeeded() && last.status@ != status_running()
                ==> after.state == JobState::Failed && action == JobAction::Fail(
                RemoteJobError::Exited { status: last.status, message: last.error_msg },
            ))
            &&& (last.status@ != status_running() <==> after.is_terminal())
        }),
{
    reveal_strlit("RUNNING");
    reveal_strlit("SUCCEEDED");
    assert(status_running().len() == 7);
    assert(status_succeeded().len() == 9);
    lemma_running_reports_keep_polling(job, running, policy);
    lemma_after_events_push(job, running, PollEvent::Report(last), policy);
}

/// Taking one more event after a sequence is one more step.
pub proof fn lemma_after_events_push(
    job: ProofJob,
    events: Seq<PollEvent>,
    event: PollEvent,
    policy: PollPolicy,
)
    ensures
        after_events(job, events.push(event), policy) == poll_step(
            after_events(job, events, policy),
            event,
            policy,
        ).0,
    decreases events.len(),
{
    let all = events.push(event);
    if events.len() == 0 {
        assert(all.drop_first() =~= Seq::<PollEvent>::empty());
        assert(after_events(poll_step(job, event, policy).0, all.drop_first(), policy)
            == poll_step(job, event, policy).0);
    } else {
        assert(all[0] == events[0]);
        assert(all.drop_first() =~= events.drop_first().push(event));
        lemma_after_events_push(
            poll_step(job, events[0], policy).0,
            events.drop_first(),
            event,
            policy,
        );
    }
}

/// A job that has reached a terminal state stays there: no event moves it.
pub proof fn lemma_terminal_is_final(job: ProofJob, event: PollEvent, policy: PollPolicy)
    requires
        job.is_terminal(),
    ensures
        poll_step(job, event, policy).0 == job,
        poll_step(job, event, policy).1 == JobAction::Fail(RemoteJobError::NotPolling),
{
}

} // verus!
