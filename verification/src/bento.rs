//! The evaluator for the Bento proving service.
//!
//! One run goes through a fixed pipeline: the combined binary is made or
//! found, its image id is taken, the input is provisioned, the guest is
//! executed locally for its cycle count, image and input are uploaded, the
//! core proving session is created and polled to its end, its receipt is
//! downloaded, measured and verified, the wrapping session is created on
//! top of it and polled in the same way, and its result is downloaded.
//! Decoding a receipt and verifying it are the caller's as well: on some
//! bytes the outside decoder or verifier does not return, and every
//! function in here does. The caller tells what decoding showed.
//! Every step that reaches outside is an [`Action`] for the caller; every
//! decision in between is taken here.

use vstd::prelude::*;
use crate::args::{EvalArgs, EvalArgsView};
use crate::benchmarks::{input_bytes, input_bytes_of};
use crate::error::{EvalError, EvalErrorView};
use crate::job::{
    allows,
    classify,
    observe,
    submitted,
    JobState,
    JobView,
    PollPolicy,
    ProvingJob,
    StatusReply,
    StatusView,
    Verdict,
    VerdictView,
};
use crate::protocol::{Action, ActionView, Event, EventView, FileRole, ReceiptShape};
use crate::report::{
    clock_khz,
    cycles_per_second,
    lemma_report_is_complete,
    normalized,
    program_label_of,
    BlockLabel,
    Measurements,
    PerformanceReport,
};
use crate::risc0::{compute_image_id, image_id_of, program_binary_blob};
use crate::text::{copy_bytes, hex_digits, hex_lower};
use crate::utils::risc0v2::{
    combined_binary_step,
    combined_path_of,
    generation_step_at,
    CacheEvent,
    CacheEventView,
    CacheStep,
    CacheStepView,
};
use crate::utils::{elf_path_of, fixture_path_of, get_elf, get_reth_input};
use crate::types::ProgramId;

verus! {

/// How many bytes one word of a succinct seal takes in the proof.
pub const SEAL_WORD_BYTES: usize = 4;

/// Where a run stands: which answer the evaluator waits for.
#[derive(Clone, Copy, PartialEq, Eq, Structural, Debug)]
pub enum Phase {
    Idle,
    Probing,
    ReadingElf,
    WritingBinary,
    ReadingBinary,
    ReadingInput,
    Executing,
    Connecting,
    UploadingImage,
    UploadingInput,
    CreatingSession,
    PollingCore,
    SleepingCore,
    DownloadingReceipt,
    VerifyingReceipt,
    CreatingSnark,
    PollingSnark,
    SleepingSnark,
    DownloadingSnark,
    Done,
    Failed,
}

/// The state of one run against the Bento service.
#[derive(Debug)]
pub struct BentoEvaluator {
    phase: Phase,
    label: String,
    prover: String,
    shard_size: u64,
    elf_path: String,
    input_path: Option<String>,
    url: String,
    kernel: Vec<u8>,
    policy: PollPolicy,
    elf: Vec<u8>,
    image_id: Vec<u8>,
    input: Vec<u8>,
    measured: Measurements,
    job: Option<ProvingJob>,
}

/// The mathematical value of a [`BentoEvaluator`].
pub struct BentoView {
    pub phase: Phase,
    /// The label of the program in the report.
    pub label: Seq<char>,
    /// The name of the backend in the report.
    pub prover: Seq<char>,
    pub shard_size: u64,
    /// Where the guest's ELF lies.
    pub elf_path: Seq<char>,
    /// Where the input lies, for a program that reads it from a fixture.
    pub input_path: Option<Seq<char>>,
    /// The address of the service.
    pub url: Seq<char>,
    /// The kernel that the guest is combined with.
    pub kernel: Seq<u8>,
    pub policy: PollPolicy,
    /// The combined binary, once read.
    pub elf: Seq<u8>,
    /// The bytes of the image id, once taken.
    pub image_id: Seq<u8>,
    /// The input of the guest, once provisioned.
    pub input: Seq<u8>,
    /// What was measured so far.
    pub measured: Measurements,
    /// The job that is polled, or was polled last.
    pub job: Option<JobView>,
}

/// The mathematical value of an optional job.
pub open spec fn job_view(job: Option<ProvingJob>) -> Option<JobView> {
    match job {
        Some(j) => Some(j@),
        None => None,
    }
}

impl View for BentoEvaluator {
    type V = BentoView;

    closed spec fn view(&self) -> BentoView {
        BentoView {
            phase: self.phase,
            label: self.label@,
            prover: self.prover@,
            shard_size: self.shard_size,
            elf_path: self.elf_path@,
            input_path: crate::args::text_view(self.input_path),
            url: self.url@,
            kernel: self.kernel@,
            policy: self.policy,
            elf: self.elf@,
            image_id: self.image_id@,
            input: self.input@,
            measured: self.measured,
            job: job_view(self.job),
        }
    }
}

/// What a run measures before anything ran: the configured shard size.
pub open spec fn initial_measurements(shard_size: u64) -> Measurements {
    Measurements {
        shard_size: Some(shard_size),
        shards: None,
        cycles: None,
        execution_duration: None,
        prove_duration: None,
        core_prove_duration: None,
        core_verify_duration: None,
        core_proof_size: None,
        compress_prove_duration: None,
        compress_verify_duration: None,
        compress_proof_size: None,
        wrap_prove_duration: None,
        groth16_prove_duration: None,
        shrink_prove_duration: None,
    }
}

/// The run that `args` configure, before its first step, or the error for
/// what `args` lack. The checks come in this order: the parameter that the
/// label needs, the backend's compiled guest, the block number of the
/// block-execution program, the address of the service. This evaluator
/// labels a block by its name.
pub open spec fn bento_initial(args: EvalArgsView, kernel: Seq<u8>, policy: PollPolicy) -> Result<
    BentoView,
    EvalErrorView,
> {
    match program_label_of(args, BlockLabel::Name) {
        Err(e) => Err(e),
        Ok(label) => match elf_path_of(args.program, args.prover) {
            None => Err(EvalErrorView::UnsupportedProver),
            Some(elf_path) => if args.program == ProgramId::Reth && args.block_number is None {
                Err(EvalErrorView::MissingBlockNumber)
            } else {
                match args.bento_url {
                    None => Err(EvalErrorView::MissingBentoUrl),
                    Some(url) => Ok(
                        BentoView {
                            phase: Phase::Idle,
                            label,
                            prover: args.prover.name(),
                            shard_size: args.shard_size,
                            elf_path,
                            input_path: if args.program == ProgramId::Reth {
                                Some(fixture_path_of("blocks"@, args.block_number.unwrap() as nat))
                            } else {
                                None
                            },
                            url,
                            kernel,
                            policy,
                            elf: Seq::empty(),
                            image_id: Seq::empty(),
                            input: if args.program == ProgramId::Fibonacci {
                                input_bytes_of(args.fibonacci_input.unwrap())
                            } else {
                                Seq::empty()
                            },
                            measured: initial_measurements(args.shard_size),
                            job: None,
                        },
                    ),
                }
            },
        },
    }
}

/// The run ends in `error`.
pub open spec fn fails(s: BentoView, error: EvalErrorView) -> (BentoView, ActionView) {
    (BentoView { phase: Phase::Failed, ..s }, ActionView::Fail(error))
}

/// The caller is asked to execute the guest.
pub open spec fn executes(s: BentoView) -> (BentoView, ActionView) {
    (
        BentoView { phase: Phase::Executing, ..s },
        ActionView::Execute {
            elf: s.elf,
            input: s.input,
            segment_limit_po2: s.shard_size as u32,
        },
    )
}

/// One move of the generation step, as an action for the caller.
pub open spec fn caches(s: BentoView, event: CacheEventView) -> (BentoView, ActionView) {
    match generation_step_at(s.elf_path, s.kernel, event) {
        CacheStepView::Probe { path } => (
            BentoView { phase: Phase::Probing, ..s },
            ActionView::Probe { path },
        ),
        CacheStepView::Load { path } => (
            BentoView { phase: Phase::ReadingElf, ..s },
            ActionView::Read { path, role: FileRole::GuestElf },
        ),
        CacheStepView::Store { path, contents } => (
            BentoView { phase: Phase::WritingBinary, ..s },
            ActionView::Write { path, contents },
        ),
        CacheStepView::Ready { path } => (
            BentoView { phase: Phase::ReadingBinary, ..s },
            ActionView::Read { path, role: FileRole::CombinedBinary },
        ),
    }
}

/// The combined binary was read: its image id is taken, and the input is
/// read where it lies in a fixture.
pub open spec fn takes_image(s: BentoView, elf: Seq<u8>) -> (BentoView, ActionView) {
    if elf.len() > u32::MAX {
        fails(s, EvalErrorView::InvalidImage)
    } else {
        match image_id_of(elf) {
            None => fails(s, EvalErrorView::InvalidImage),
            Some(image_id) => {
                let loaded = BentoView { elf, image_id, ..s };
                match s.input_path {
                    Some(path) => (
                        BentoView { phase: Phase::ReadingInput, ..loaded },
                        ActionView::Read { path, role: FileRole::BlockFixture },
                    ),
                    None => executes(loaded),
                }
            },
        }
    }
}

/// A status reply came in for the job of the stage that is polled. While
/// the job runs, the run pauses. On success the time that the stage took
/// is the time up to this reply, and the result is downloaded: the core
/// receipt by the id of its job, the wrapped proof from where the reply
/// says. Any other verdict ends the run.
pub open spec fn polls(s: BentoView, reply: StatusView, elapsed: u128) -> (
    BentoView,
    ActionView,
) {
    match s.job {
        None => fails(s, EvalErrorView::UnexpectedEvent),
        Some(job) => {
            let (next, verdict) = observe(job, reply);
            let seen = BentoView { job: Some(next), ..s };
            match verdict {
                VerdictView::Wait { millis } => (
                    BentoView {
                        phase: if s.phase == Phase::PollingCore {
                            Phase::SleepingCore
                        } else {
                            Phase::SleepingSnark
                        },
                        ..seen
                    },
                    ActionView::Sleep { millis },
                ),
                VerdictView::Abort(error) => fails(seen, error),
                VerdictView::Fetch => if s.phase == Phase::PollingCore {
                    (
                        BentoView {
                            phase: Phase::DownloadingReceipt,
                            measured: Measurements { prove_duration: Some(elapsed), ..s.measured },
                            ..seen
                        },
                        ActionView::DownloadReceipt { job_id: job.id },
                    )
                } else {
                    let timed = BentoView {
                        measured: Measurements {
                            groth16_prove_duration: Some(elapsed),
                            ..s.measured
                        },
                        ..seen
                    };
                    match reply.output {
                        Some(url) => (
                            BentoView { phase: Phase::DownloadingSnark, ..timed },
                            ActionView::Download { url },
                        ),
                        None => fails(timed, EvalErrorView::MissingOutput { job_id: job.id }),
                    }
                },
            }
        },
    }
}

/// The pause is over: the job is asked for again.
pub open spec fn asks_again(s: BentoView) -> (BentoView, ActionView) {
    match s.job {
        None => fails(s, EvalErrorView::UnexpectedEvent),
        Some(job) => if s.phase == Phase::SleepingCore {
            (
                BentoView { phase: Phase::PollingCore, ..s },
                ActionView::PollSession { job_id: job.id },
            )
        } else {
            (BentoView { phase: Phase::PollingSnark, ..s }, ActionView::PollSnark { job_id: job.id })
        },
    }
}

/// The size in bytes of a succinct seal of `words` words: four for each,
/// and no more than the report can hold.
pub open spec fn seal_size(words: usize) -> usize {
    if words * SEAL_WORD_BYTES > usize::MAX {
        usize::MAX
    } else {
        (words * SEAL_WORD_BYTES) as usize
    }
}

/// The core receipt was downloaded, and decoding it showed `shape`: it has
/// to be a receipt, and a succinct one. The report then holds the size of
/// its seal, and the caller is asked to verify the receipt.
pub open spec fn measures_receipt(s: BentoView, receipt: Seq<u8>, shape: ReceiptShape) -> (
    BentoView,
    ActionView,
) {
    match shape {
        ReceiptShape::Malformed => fails(s, EvalErrorView::MalformedReceipt),
        ReceiptShape::NotSuccinct => fails(s, EvalErrorView::UnexpectedReceiptKind),
        ReceiptShape::Succinct { seal_words } => (
            BentoView {
                phase: Phase::VerifyingReceipt,
                measured: Measurements {
                    compress_proof_size: Some(seal_size(seal_words)),
                    ..s.measured
                },
                ..s
            },
            ActionView::Verify { receipt, image_digest: s.image_id },
        ),
    }
}

/// The core receipt was verified: a receipt that does not verify ends the
/// run; after one that does, the wrapping session is asked for.
pub open spec fn concludes_core(s: BentoView, valid: bool, duration: u128) -> (
    BentoView,
    ActionView,
) {
    if !valid {
        fails(s, EvalErrorView::VerificationFailed)
    } else {
        match s.job {
            None => fails(s, EvalErrorView::UnexpectedEvent),
            Some(job) => (
                BentoView {
                    phase: Phase::CreatingSnark,
                    measured: Measurements {
                        compress_verify_duration: Some(duration),
                        ..s.measured
                    },
                    ..s
                },
                ActionView::CreateSnark { job_id: job.id },
            ),
        }
    }
}

/// One step of the run: the state after `event`, and the action that
/// answers it.
///
/// A run that is over answers every event with
/// [`EvalError::UnexpectedEvent`] and stays as it is. A failure that the
/// caller reports ends the run with that cause, and so does an event that
/// does not answer the action that was handed out.
pub open spec fn bento_step(s: BentoView, event: EventView) -> (BentoView, ActionView) {
    if s.phase == Phase::Done || s.phase == Phase::Failed {
        (s, ActionView::Fail(EvalErrorView::UnexpectedEvent))
    } else if event is Failed {
        fails(s, EvalErrorView::Outside { cause: event->cause })
    } else {
        match (s.phase, event) {
            (Phase::Idle, EventView::Started) => caches(s, CacheEventView::Begin),
            (Phase::Probing, EventView::Probed { exists }) => caches(
                s,
                CacheEventView::Probed { exists },
            ),
            (Phase::ReadingElf, EventView::Loaded { contents }) => caches(
                s,
                CacheEventView::Loaded { user_elf: contents },
            ),
            (Phase::WritingBinary, EventView::Written) => caches(s, CacheEventView::Stored),
            (Phase::ReadingBinary, EventView::Loaded { contents }) => takes_image(s, contents),
            (Phase::ReadingInput, EventView::Loaded { contents }) => executes(
                BentoView { input: contents, ..s },
            ),
            (Phase::Executing, EventView::Executed { cycles, duration }) => (
                BentoView {
                    phase: Phase::Connecting,
                    measured: Measurements {
                        cycles: Some(cycles),
                        execution_duration: Some(duration),
                        ..s.measured
                    },
                    ..s
                },
                ActionView::Connect { url: s.url, api_key: Seq::empty() },
            ),
            (Phase::Connecting, EventView::Connected) => (
                BentoView { phase: Phase::UploadingImage, ..s },
                ActionView::UploadImage { image_id: hex_digits(s.image_id), elf: s.elf },
            ),
            (Phase::UploadingImage, EventView::ImageUploaded) => (
                BentoView { phase: Phase::UploadingInput, ..s },
                ActionView::UploadInput { input: s.input },
            ),
            (Phase::UploadingInput, EventView::InputUploaded { input_id }) => (
                BentoView { phase: Phase::CreatingSession, ..s },
                ActionView::CreateSession {
                    image_id: hex_digits(s.image_id),
                    input_id,
                    assumptions: Seq::empty(),
                    execute_only: false,
                },
            ),
            (Phase::CreatingSession, EventView::SessionCreated { job_id }) => (
                BentoView {
                    phase: Phase::PollingCore,
                    job: Some(submitted(job_id, s.policy)),
                    ..s
                },
                ActionView::PollSession { job_id },
            ),
            (Phase::PollingCore, EventView::Status { reply, elapsed }) => polls(s, reply, elapsed),
            (Phase::SleepingCore, EventView::Slept) => asks_again(s),
            (Phase::DownloadingReceipt, EventView::Downloaded { contents, shape }) =>
                measures_receipt(s, contents, shape),
            (Phase::VerifyingReceipt, EventView::Verified { valid, duration }) => concludes_core(
                s,
                valid,
                duration,
            ),
            (Phase::CreatingSnark, EventView::SnarkCreated { job_id }) => (
                BentoView {
                    phase: Phase::PollingSnark,
                    job: Some(submitted(job_id, s.policy)),
                    ..s
                },
                ActionView::PollSnark { job_id },
            ),
            (Phase::PollingSnark, EventView::Status { reply, elapsed }) => polls(s, reply, elapsed),
            (Phase::SleepingSnark, EventView::Slept) => asks_again(s),
            (Phase::DownloadingSnark, EventView::Downloaded { contents, shape }) => if shape
                == ReceiptShape::Malformed {
                fails(s, EvalErrorView::MalformedReceipt)
            } else {
                (
                    BentoView { phase: Phase::Done, ..s },
                    ActionView::Finish(normalized(s.label, s.prover, s.measured)),
                )
            },
            _ => fails(s, EvalErrorView::UnexpectedEvent),
        }
    }
}

impl BentoEvaluator {
    /// Sets up a run for `args`, with the kernel that the guest is combined
    /// with and the way in which jobs are polled.
    ///
    /// Fails, before anything is asked of the caller, where `args` lack
    /// what the selected program or the backend needs.
    pub fn new(args: &EvalArgs, kernel: Vec<u8>, policy: PollPolicy) -> (run: Result<
        BentoEvaluator,
        EvalError,
    >)
        ensures
            match run {
                Ok(r) => bento_initial(args@, kernel@, policy) == Ok::<BentoView, EvalErrorView>(r@),
                Err(e) => bento_initial(args@, kernel@, policy) == Err::<BentoView, EvalErrorView>(
                    e@,
                ),
            },
    {
        let label: String = match PerformanceReport::program_label(args, BlockLabel::Name) {
            Ok(label) => label,
            Err(e) => { return Err(e); },
        };
        let elf_path: String = match get_elf(args) {
            Ok(path) => path,
            Err(e) => { return Err(e); },
        };
        let input_path: Option<String> = match args.program {
            ProgramId::Reth => match get_reth_input(args) {
                Ok(path) => Some(path),
                Err(e) => { return Err(e); },
            },
            _ => None,
        };
        let url: String = match &args.bento_url {
            Some(url) => url.clone(),
            None => { return Err(EvalError::MissingBentoUrl); },
        };
        let input: Vec<u8> = match args.program {
            ProgramId::Fibonacci => match args.fibonacci_input {
                Some(n) => input_bytes(n),
                None => Vec::new(),
            },
            _ => Vec::new(),
        };
        let mut measured = Measurements::none();
        measured.shard_size = Some(args.shard_size);
        Ok(
            BentoEvaluator {
                phase: Phase::Idle,
                label,
                prover: args.prover.to_string(),
                shard_size: args.shard_size,
                elf_path,
                input_path,
                url,
                kernel,
                policy,
                elf: Vec::new(),
                image_id: Vec::new(),
                input,
                measured,
                job: None,
            },
        )
    }

    /// Where the run stands.
    pub fn phase(&self) -> (phase: Phase)
        ensures
            phase == self@.phase,
    {
        self.phase
    }

    fn fail(&mut self, error: EvalError) -> (action: Action)
        ensures
            (final(self)@, action@) == fails(old(self)@, error@),
    {
        self.phase = Phase::Failed;
        Action::Fail(error)
    }

    fn execute(&mut self) -> (action: Action)
        ensures
            (final(self)@, action@) == executes(old(self)@),
    {
        self.phase = Phase::Executing;
        Action::Execute {
            elf: copy_bytes(&self.elf),
            input: copy_bytes(&self.input),
            segment_limit_po2: #[verifier::truncate]
            (self.shard_size as u32),
        }
    }

    fn cache(&mut self, event: CacheEvent) -> (action: Action)
        ensures
            (final(self)@, action@) == caches(old(self)@, event@),
    {
        match combined_binary_step(self.elf_path.as_str(), self.kernel.as_slice(), event) {
            CacheStep::Probe { path } => {
                self.phase = Phase::Probing;
                Action::Probe { path }
            },
            CacheStep::Load { path } => {
                self.phase = Phase::ReadingElf;
                Action::Read { path, role: FileRole::GuestElf }
            },
            CacheStep::Store { path, contents } => {
                self.phase = Phase::WritingBinary;
                Action::Write { path, contents }
            },
            CacheStep::Ready { path } => {
                self.phase = Phase::ReadingBinary;
                Action::Read { path, role: FileRole::CombinedBinary }
            },
        }
    }

    fn take_image(&mut self, elf: Vec<u8>) -> (action: Action)
        ensures
            (final(self)@, action@) == takes_image(old(self)@, elf@),
    {
        if elf.len() > 0xffff_ffff {
            return self.fail(EvalError::InvalidImage);
        }
        match compute_image_id(elf.as_slice()) {
            None => self.fail(EvalError::InvalidImage),
            Some(image_id) => {
                self.elf = elf;
                self.image_id = image_id;
                let path: Option<String> = self.input_path.clone();
                match path {
                    Some(path) => {
                        self.phase = Phase::ReadingInput;
                        Action::Read { path, role: FileRole::BlockFixture }
                    },
                    None => self.execute(),
                }
            },
        }
    }

    fn poll(&mut self, reply: StatusReply, elapsed: u128) -> (action: Action)
        requires
            old(self)@.phase == Phase::PollingCore || old(self)@.phase == Phase::PollingSnark,
        ensures
            (final(self)@, action@) == polls(old(self)@, reply@, elapsed),
    {
        let job: Option<ProvingJob> = self.job.take();
        match job {
            None => self.fail(EvalError::UnexpectedEvent),
            Some(mut job) => {
                let verdict: Verdict = job.observe(&reply);
                let job_id: String = job.id.clone();
                self.job = Some(job);
                match verdict {
                    Verdict::Wait { millis } => {
                        self.phase = if self.phase == Phase::PollingCore {
                            Phase::SleepingCore
                        } else {
                            Phase::SleepingSnark
                        };
                        Action::Sleep { millis }
                    },
                    Verdict::Abort(error) => self.fail(error),
                    Verdict::Fetch => {
                        if self.phase == Phase::PollingCore {
                            self.phase = Phase::DownloadingReceipt;
                            self.measured.prove_duration = Some(elapsed);
                            Action::DownloadReceipt { job_id }
                        } else {
                            self.measured.groth16_prove_duration = Some(elapsed);
                            match reply.output {
                                Some(url) => {
                                    self.phase = Phase::DownloadingSnark;
                                    Action::Download { url }
                                },
                                None => self.fail(EvalError::MissingOutput { job_id }),
                            }
                        }
                    },
                }
            },
        }
    }

    fn ask_again(&mut self) -> (action: Action)
        requires
            old(self)@.phase == Phase::SleepingCore || old(self)@.phase == Phase::SleepingSnark,
        ensures
            (final(self)@, action@) == asks_again(old(self)@),
    {
        let job_id: Option<String> = match &self.job {
            Some(job) => Some(job.id.clone()),
            None => None,
        };
        match job_id {
            None => self.fail(EvalError::UnexpectedEvent),
            Some(job_id) => {
                if self.phase == Phase::SleepingCore {
                    self.phase = Phase::PollingCore;
                    Action::PollSession { job_id }
                } else {
                    self.phase = Phase::PollingSnark;
                    Action::PollSnark { job_id }
                }
            },
        }
    }

    fn finish(&mut self) -> (action: Action)
        ensures
            final(self)@ == (BentoView { phase: Phase::Done, ..old(self)@ }),
            action@ == ActionView::Finish(
                normalized(old(self)@.label, old(self)@.prover, old(self)@.measured),
            ),
    {
        self.phase = Phase::Done;
        Action::Finish(
            PerformanceReport::normalize(self.label.clone(), self.prover.clone(), &self.measured),
        )
    }

    fn measure_receipt(&mut self, receipt: Vec<u8>, shape: ReceiptShape) -> (action: Action)
        ensures
            (final(self)@, action@) == measures_receipt(old(self)@, receipt@, shape),
    {
        let words: usize = match shape {
            ReceiptShape::Malformed => { return self.fail(EvalError::MalformedReceipt); },
            ReceiptShape::NotSuccinct => { return self.fail(EvalError::UnexpectedReceiptKind); },
            ReceiptShape::Succinct { seal_words } => seal_words,
        };
        let size: usize = match words.checked_mul(SEAL_WORD_BYTES) {
            Some(size) => size,
            None => usize::MAX,
        };
        self.measured.compress_proof_size = Some(size);
        self.phase = Phase::VerifyingReceipt;
        Action::Verify { receipt, image_digest: copy_bytes(&self.image_id) }
    }

    fn conclude_core(&mut self, valid: bool, duration: u128) -> (action: Action)
        ensures
            (final(self)@, action@) == concludes_core(old(self)@, valid, duration),
    {
        if !valid {
            return self.fail(EvalError::VerificationFailed);
        }
        let job_id: Option<String> = match &self.job {
            Some(job) => Some(job.id.clone()),
            None => None,
        };
        match job_id {
            None => self.fail(EvalError::UnexpectedEvent),
            Some(job_id) => {
                self.phase = Phase::CreatingSnark;
                self.measured.compress_verify_duration = Some(duration);
                Action::CreateSnark { job_id }
            },
        }
    }

    /// Takes in how the last action went and decides the next one.
    ///
    /// The first event of a run is [`Event::Started`]. The run is over
    /// with the first [`Action::Finish`] or [`Action::Fail`].
    pub fn eval(&mut self, event: Event) -> (action: Action)
        ensures
            (final(self)@, action@) == bento_step(old(self)@, event@),
    {
        if self.phase == Phase::Done || self.phase == Phase::Failed {
            return Action::Fail(EvalError::UnexpectedEvent);
        }
        match event {
            Event::Failed { cause } => self.fail(EvalError::Outside { cause }),
            Event::Started => {
                if self.phase == Phase::Idle {
                    self.cache(CacheEvent::Begin)
                } else {
                    self.fail(EvalError::UnexpectedEvent)
                }
            },
            Event::Probed { exists } => {
                if self.phase == Phase::Probing {
                    self.cache(CacheEvent::Probed { exists })
                } else {
                    self.fail(EvalError::UnexpectedEvent)
                }
            },
            Event::Loaded { contents } => {
                if self.phase == Phase::ReadingElf {
                    self.cache(CacheEvent::Loaded { user_elf: contents })
                } else if self.phase == Phase::ReadingBinary {
                    self.take_image(contents)
                } else if self.phase == Phase::ReadingInput {
                    self.input = contents;
                    self.execute()
                } else {
                    self.fail(EvalError::UnexpectedEvent)
                }
            },
            Event::Written => {
                if self.phase == Phase::WritingBinary {
                    self.cache(CacheEvent::Stored)
                } else {
                    self.fail(EvalError::UnexpectedEvent)
                }
            },
            Event::Executed { cycles, duration } => {
                if self.phase == Phase::Executing {
                    self.phase = Phase::Connecting;
                    self.measured.cycles = Some(cycles);
                    self.measured.execution_duration = Some(duration);
                    Action::Connect { url: self.url.clone(), api_key: String::new() }
                } else {
                    self.fail(EvalError::UnexpectedEvent)
                }
            },
            Event::Connected => {
                if self.phase == Phase::Connecting {
                    self.phase = Phase::UploadingImage;
                    Action::UploadImage {
                        image_id: hex_lower(self.image_id.as_slice()),
                        elf: copy_bytes(&self.elf),
                    }
                } else {
                    self.fail(EvalError::UnexpectedEvent)
                }
            },
            Event::ImageUploaded => {
                if self.phase == Phase::UploadingImage {
                    self.phase = Phase::UploadingInput;
                    Action::UploadInput { input: copy_bytes(&self.input) }
                } else {
                    self.fail(EvalError::UnexpectedEvent)
                }
            },
            Event::InputUploaded { input_id } => {
                if self.phase == Phase::UploadingInput {
                    self.phase = Phase::CreatingSession;
                    let assumptions: Vec<String> = Vec::new();
                    assert(assumptions.deep_view() =~= Seq::<Seq<char>>::empty());
                    Action::CreateSession {
                        image_id: hex_lower(self.image_id.as_slice()),
                        input_id,
                        assumptions,
                        execute_only: false,
                    }
                } else {
                    self.fail(EvalError::UnexpectedEvent)
                }
            },
            Event::SessionCreated { job_id } => {
                if self.phase == Phase::CreatingSession {
                    self.phase = Phase::PollingCore;
                    self.job = Some(ProvingJob::submit(job_id.clone(), &self.policy));
                    Action::PollSession { job_id }
                } else {
                    self.fail(EvalError::UnexpectedEvent)
                }
            },
            Event::Status { reply, elapsed } => {
                if self.phase == Phase::PollingCore || self.phase == Phase::PollingSnark {
                    self.poll(reply, elapsed)
                } else {
                    self.fail(EvalError::UnexpectedEvent)
                }
            },
            Event::Slept => {
                if self.phase == Phase::SleepingCore || self.phase == Phase::SleepingSnark {
                    self.ask_again()
                } else {
                    self.fail(EvalError::UnexpectedEvent)
                }
            },
            Event::Downloaded { contents, shape } => {
                if self.phase == Phase::DownloadingReceipt {
                    self.measure_receipt(contents, shape)
                } else if self.phase == Phase::DownloadingSnark {
                    if shape == ReceiptShape::Malformed {
                        self.fail(EvalError::MalformedReceipt)
                    } else {
                        self.finish()
                    }
                } else {
                    self.fail(EvalError::UnexpectedEvent)
                }
            },
            Event::Verified { valid, duration } => {
                if self.phase == Phase::VerifyingReceipt {
                    self.conclude_core(valid, duration)
                } else {
                    self.fail(EvalError::UnexpectedEvent)
                }
            },
            Event::SnarkCreated { job_id } => {
                if self.phase == Phase::CreatingSnark {
                    self.phase = Phase::PollingSnark;
                    self.job = Some(ProvingJob::submit(job_id.clone(), &self.policy));
                    Action::PollSnark { job_id }
                } else {
                    self.fail(EvalError::UnexpectedEvent)
                }
            },
            Event::Exited { .. } => self.fail(EvalError::UnexpectedEvent),
        }
    }
}

/// What holds of every state that a run comes to: while a stage is polled
/// there is a job, and it runs; from then on to the end of the pipeline
/// there is a job to refer to.
pub open spec fn bento_sound(s: BentoView) -> bool {
    match s.phase {
        Phase::PollingCore | Phase::SleepingCore | Phase::PollingSnark | Phase::SleepingSnark =>
            s.job matches Some(job) && job.state == JobState::Running,
        Phase::DownloadingReceipt
        | Phase::VerifyingReceipt
        | Phase::CreatingSnark
        | Phase::DownloadingSnark => s.job matches Some(job) && job.state == JobState::Succeeded,
        _ => true,
    }
}

/// A step leads from a sound state to a sound state.
pub proof fn lemma_bento_step_is_sound(s: BentoView, event: EventView)
    requires
        bento_sound(s),
    ensures
        bento_sound(bento_step(s, event).0),
{
}

/// Every state that a run comes to is sound.
pub proof fn lemma_bento_run_is_sound(
    args: EvalArgsView,
    kernel: Seq<u8>,
    policy: PollPolicy,
    events: Seq<EventView>,
)
    requires
        bento_initial(args, kernel, policy) is Ok,
    ensures
        bento_sound(bento_run(bento_initial(args, kernel, policy)->Ok_0, events)),
    decreases events.len(),
{
    if events.len() > 0 {
        lemma_bento_run_is_sound(args, kernel, policy, events.drop_last());
        lemma_bento_step_is_sound(
            bento_run(bento_initial(args, kernel, policy)->Ok_0, events.drop_last()),
            events.last(),
        );
    }
}

/// The state of a run after the given events.
pub open spec fn bento_run(s: BentoView, events: Seq<EventView>) -> BentoView
    decreases events.len(),
{
    if events.len() == 0 {
        s
    } else {
        bento_step(bento_run(s, events.drop_last()), events.last()).0
    }
}

/// The action that answers the last of the given events.
pub open spec fn bento_answer(s: BentoView, events: Seq<EventView>) -> ActionView
    recommends
        events.len() > 0,
{
    bento_step(bento_run(s, events.drop_last()), events.last()).1
}

/// What a run for `args` holds on to from its first step to its last: the
/// labels of the report, the configured shard size, and that nothing is
/// measured of the stages that this backend does not show.
pub open spec fn bento_holds(args: EvalArgsView, s: BentoView) -> bool {
    &&& program_label_of(args, BlockLabel::Name) == Ok::<Seq<char>, EvalErrorView>(s.label)
    &&& s.prover == args.prover.name()
    &&& s.measured.shard_size == Some(args.shard_size)
    &&& s.measured.shards is None
    &&& s.measured.core_prove_duration is None
    &&& s.measured.core_verify_duration is None
    &&& s.measured.core_proof_size is None
    &&& s.measured.compress_prove_duration is None
    &&& s.measured.wrap_prove_duration is None
    &&& s.measured.shrink_prove_duration is None
}

proof fn lemma_bento_step_holds(args: EvalArgsView, s: BentoView, event: EventView)
    requires
        bento_holds(args, s),
    ensures
        bento_holds(args, bento_step(s, event).0),
        bento_step(s, event).1 matches ActionView::Finish(report) ==> report == normalized(
            s.label,
            s.prover,
            s.measured,
        ),
{
}

proof fn lemma_bento_run_holds(args: EvalArgsView, s: BentoView, events: Seq<EventView>)
    requires
        bento_holds(args, s),
    ensures
        bento_holds(args, bento_run(s, events)),
    decreases events.len(),
{
    if events.len() > 0 {
        lemma_bento_run_holds(args, s, events.drop_last());
        lemma_bento_step_holds(args, bento_run(s, events.drop_last()), events.last());
    }
}

/// Whatever the events of a run, the report that it ends in is complete:
/// the program's label follows the rule for labels, the backend and the
/// shard size are the configured ones, and every figure that this backend
/// does not show is zero.
pub proof fn lemma_bento_report_is_complete(
    args: EvalArgsView,
    kernel: Seq<u8>,
    policy: PollPolicy,
    events: Seq<EventView>,
)
    requires
        bento_initial(args, kernel, policy) is Ok,
        events.len() > 0,
        bento_answer(bento_initial(args, kernel, policy)->Ok_0, events) is Finish,
    ensures
        ({
            let report = bento_answer(bento_initial(args, kernel, policy)->Ok_0, events)->Finish_0;
            &&& program_label_of(args, BlockLabel::Name) == Ok::<Seq<char>, EvalErrorView>(
                report.program,
            )
            &&& report.prover == args.prover.name()
            &&& report.shard_size == args.shard_size
            &&& report.shards == 0
            &&& report.core_prove_duration == 0
            &&& report.core_verify_duration == 0
            &&& report.core_proof_size == 0
            &&& report.core_khz == 0
            &&& report.compress_prove_duration == 0
            &&& report.wrap_prove_duration == 0
            &&& report.shrink_prove_duration == 0
            &&& report.speed == cycles_per_second(report.cycles, report.prove_duration)
            &&& report.overall_khz == clock_khz(report.cycles, report.prove_duration)
        }),
{
    let start = bento_initial(args, kernel, policy)->Ok_0;
    let before = bento_run(start, events.drop_last());
    lemma_bento_run_holds(args, start, events.drop_last());
    lemma_bento_step_holds(args, before, events.last());
    lemma_report_is_complete(before.label, before.prover, before.measured);
}

/// A run for the block-execution program without a block number, or for
/// Fibonacci without an input size, is refused when it is set up: no
/// evaluator comes to be, so no action is ever handed out for it, remote
/// or other.
pub proof fn lemma_bento_refuses_missing_input(
    args: EvalArgsView,
    kernel: Seq<u8>,
    policy: PollPolicy,
)
    requires
        (args.program == ProgramId::Reth && args.block_number is None) || (args.program
            == ProgramId::Fibonacci && args.fibonacci_input is None),
    ensures
        bento_initial(args, kernel, policy) is Err,
{
}

/// The first action of a run reaches neither for the service nor for a
/// subprocess: it looks for a file.
pub proof fn lemma_bento_starts_locally(s: BentoView)
    requires
        s.phase == Phase::Idle,
    ensures
        bento_step(s, EventView::Started).1 is Probe,
        !bento_step(s, EventView::Started).1.is_remote_or_subprocess(),
{
}

/// The poll loop of the stage that `s` is in, as an honest caller runs it
/// against a service that gives the `replies` in turn: each reply is
/// handed in, and as long as the answer is to sleep, the pause is taken
/// and reported. Yields the state as the loop leaves it and the actions in
/// the order in which they were handed out. `elapsed` is the time that the
/// caller reads off its clock at each reply.
pub open spec fn bento_poll_loop(s: BentoView, replies: Seq<StatusView>, elapsed: u128) -> (
    BentoView,
    Seq<ActionView>,
)
    decreases replies.len(),
{
    if replies.len() == 0 {
        (s, Seq::empty())
    } else {
        let (polled, first) = bento_step(s, EventView::Status { reply: replies[0], elapsed });
        if first is Sleep {
            let (rested, second) = bento_step(polled, EventView::Slept);
            let (last, rest) = bento_poll_loop(rested, replies.skip(1), elapsed);
            (last, seq![first, second] + rest)
        } else {
            (polled, seq![first])
        }
    }
}

/// The action that asks for the status of the job of the stage.
pub open spec fn asks(core: bool, job_id: Seq<char>) -> ActionView {
    if core {
        ActionView::PollSession { job_id }
    } else {
        ActionView::PollSnark { job_id }
    }
}

/// Against a service that says `RUNNING` exactly `n` times and then
/// something else, either stage takes exactly `n` pauses of the configured
/// length, asks again after each, and leaves the loop on the reply that
/// follows: to download the result where the job succeeded, in failure
/// with the job's id and the service's message where it did not.
pub proof fn lemma_bento_sleeps_once_per_running_reply(
    s: BentoView,
    replies: Seq<StatusView>,
    elapsed: u128,
    n: nat,
)
    requires
        s.phase == Phase::PollingCore || s.phase == Phase::PollingSnark,
        bento_sound(s),
        allows(s.job.unwrap().waits_left, n),
        n < replies.len(),
        forall|i: int| 0 <= i < n ==> classify(#[trigger] replies[i].status) == JobState::Running,
        classify(replies[n as int].status) != JobState::Running,
    ensures
        ({
            let (last, actions) = bento_poll_loop(s, replies, elapsed);
            let job = s.job.unwrap();
            let core = s.phase == Phase::PollingCore;
            let end = replies[n as int];
            &&& actions.len() == 2 * n + 1
            &&& forall|i: int|
                0 <= i < n ==> #[trigger] actions[2 * i] == (ActionView::Sleep {
                    millis: job.interval_millis,
                })
            &&& forall|i: int| 0 <= i < n ==> #[trigger] actions[2 * i + 1] == asks(core, job.id)
            &&& !(actions[2 * (n as int)] is Sleep)
            &&& classify(end.status) == JobState::Failed ==> last.phase == Phase::Failed
                && actions[2 * (n as int)] == ActionView::Fail(
                EvalErrorView::JobFailed {
                    job_id: job.id,
                    message: match end.error_msg {
                        Some(m) => m,
                        None => Seq::empty(),
                    },
                },
            )
            &&& classify(end.status) == JobState::Succeeded && core ==> last.phase
                == Phase::DownloadingReceipt && last.measured.prove_duration == Some(elapsed)
                && actions[2 * (n as int)] == (ActionView::DownloadReceipt { job_id: job.id })
            &&& classify(end.status) == JobState::Succeeded && !core ==> match end.output {
                Some(url) => last.phase == Phase::DownloadingSnark
                    && last.measured.groth16_prove_duration == Some(elapsed) && actions[2 * (n as int)] == (
                ActionView::Download { url }),
                None => last.phase == Phase::Failed && actions[2 * (n as int)] == ActionView::Fail(
                    EvalErrorView::MissingOutput { job_id: job.id },
                ),
            }
        }),
    decreases n,
{
    let job = s.job.unwrap();
    let core = s.phase == Phase::PollingCore;
    let (polled, first) = bento_step(s, EventView::Status { reply: replies[0], elapsed });
    if n == 0 {
        assert(!(first is Sleep));
    } else {
        assert(classify(replies[0].status) == JobState::Running);
        assert(first == ActionView::Sleep { millis: job.interval_millis });
        let (rested, second) = bento_step(polled, EventView::Slept);
        assert(second == asks(core, job.id));
        let tail = replies.skip(1);
        assert forall|i: int| 0 <= i < n - 1 implies classify(#[trigger] tail[i].status)
            == JobState::Running by {
            assert(tail[i] == replies[i + 1]);
        }
        assert(tail[(n - 1) as int] == replies[n as int]);
        lemma_bento_sleeps_once_per_running_reply(rested, tail, elapsed, (n - 1) as nat);
        let (last, rest) = bento_poll_loop(rested, tail, elapsed);
        let actions = bento_poll_loop(s, replies, elapsed).1;
        assert(actions == seq![first, second] + rest);
        assert forall|i: int| 0 <= i < n implies #[trigger] actions[2 * i] == (ActionView::Sleep {
            millis: job.interval_millis,
        }) by {
            if i > 0 {
                assert(actions[2 * i] == rest[2 * (i - 1)]);
            }
        }
        assert forall|i: int| 0 <= i < n implies #[trigger] actions[2 * i + 1] == asks(
            core,
            job.id,
        ) by {
            if i > 0 {
                assert(actions[2 * i + 1] == rest[2 * (i - 1) + 1]);
            }
        }
        assert(actions[2 * (n as int)] == rest[2 * (n - 1)]);
    }
}

/// What the caller finds out from the local execution on, in a run in
/// which everything goes well.
pub struct Findings {
    pub cycles: u64,
    pub execution_duration: u128,
    pub input_id: Seq<char>,
    pub core_job: Seq<char>,
    pub prove_duration: u128,
    pub receipt: Seq<u8>,
    /// The words in the succinct seal of the core receipt.
    pub seal_words: usize,
    pub verify_duration: u128,
    pub snark_job: Seq<char>,
    pub groth16_prove_duration: u128,
    pub snark_url: Seq<char>,
    pub snark: Seq<u8>,
    /// What decoding the wrapped proof showed.
    pub snark_shape: ReceiptShape,
}

/// A reply that reports success, with a reference to the result.
pub open spec fn succeeded(output: Option<Seq<char>>) -> StatusView {
    StatusView { status: "SUCCEEDED"@, error_msg: None, output }
}

/// The events of such a run from the local execution on, where no job has
/// to be waited for, in their order.
pub open spec fn smooth_events(found: Findings) -> Seq<EventView> {
    seq![
        EventView::Executed { cycles: found.cycles, duration: found.execution_duration },
        EventView::Connected,
        EventView::ImageUploaded,
        EventView::InputUploaded { input_id: found.input_id },
        EventView::SessionCreated { job_id: found.core_job },
        EventView::Status { reply: succeeded(None), elapsed: found.prove_duration },
        EventView::Downloaded {
            contents: found.receipt,
            shape: ReceiptShape::Succinct { seal_words: found.seal_words },
        },
        EventView::Verified { valid: true, duration: found.verify_duration },
        EventView::SnarkCreated { job_id: found.snark_job },
        EventView::Status {
            reply: succeeded(Some(found.snark_url)),
            elapsed: found.groth16_prove_duration,
        },
        EventView::Downloaded { contents: found.snark, shape: found.snark_shape },
    ]
}

/// What such a run has measured at its end.
pub open spec fn smooth_measurements(s: BentoView, found: Findings) -> Measurements {
    Measurements {
        cycles: Some(found.cycles),
        execution_duration: Some(found.execution_duration),
        prove_duration: Some(found.prove_duration),
        compress_proof_size: Some(seal_size(found.seal_words)),
        compress_verify_duration: Some(found.verify_duration),
        groth16_prove_duration: Some(found.groth16_prove_duration),
        ..s.measured
    }
}

/// The actions that answer those events, in their order.
pub open spec fn smooth_actions(s: BentoView, found: Findings) -> Seq<ActionView> {
    seq![
        ActionView::Connect { url: s.url, api_key: Seq::empty() },
        ActionView::UploadImage { image_id: hex_digits(s.image_id), elf: s.elf },
        ActionView::UploadInput { input: s.input },
        ActionView::CreateSession {
            image_id: hex_digits(s.image_id),
            input_id: found.input_id,
            assumptions: Seq::empty(),
            execute_only: false,
        },
        ActionView::PollSession { job_id: found.core_job },
        ActionView::DownloadReceipt { job_id: found.core_job },
        ActionView::Verify { receipt: found.receipt, image_digest: s.image_id },
        ActionView::CreateSnark { job_id: found.core_job },
        ActionView::PollSnark { job_id: found.snark_job },
        ActionView::Download { url: found.snark_url },
        ActionView::Finish(normalized(s.label, s.prover, smooth_measurements(s, found))),
    ]
}

/// The actions that answer the given events, one after the other.
pub open spec fn bento_answers(s: BentoView, events: Seq<EventView>) -> Seq<ActionView> {
    Seq::new(events.len(), |k: int| bento_answer(s, events.take(k + 1)))
}

/// The state after the first `n` of the given events, and the actions that
/// answered them: the run, told from its start.
spec fn bento_play(s: BentoView, events: Seq<EventView>, n: nat) -> (BentoView, Seq<ActionView>)
    decreases n,
{
    if n == 0 {
        (s, Seq::empty())
    } else {
        let (before, answers) = bento_play(s, events, (n - 1) as nat);
        let (after, answer) = bento_step(before, events[n - 1]);
        (after, answers.push(answer))
    }
}

proof fn lemma_play_is_run(s: BentoView, events: Seq<EventView>, n: nat)
    requires
        n <= events.len(),
    ensures
        bento_play(s, events, n).0 == bento_run(s, events.take(n as int)),
        bento_play(s, events, n).1 == bento_answers(s, events.take(n as int)),
    decreases n,
{
    let prefix = events.take(n as int);
    if n == 0 {
        assert(bento_play(s, events, n).1 =~= bento_answers(s, prefix));
    } else {
        lemma_play_is_run(s, events, (n - 1) as nat);
        let shorter = events.take(n - 1);
        assert(prefix.drop_last() == shorter);
        assert(prefix.last() == events[n - 1]);
        assert(prefix.take(n as int) == prefix);
        assert forall|k: int| 0 <= k < n - 1 implies #[trigger] bento_answers(s, prefix)[k]
            == bento_answers(s, shorter)[k] by {
            assert(prefix.take(k + 1) =~= shorter.take(k + 1));
        }
        assert(bento_play(s, events, n).1 =~= bento_answers(s, prefix));
    }
}

/// The remote pipeline, from the local execution to the report: where the
/// core receipt decodes as a succinct one and verifies, the wrapped proof
/// decodes as a receipt, and both jobs succeed at the first request, the run connects,
/// uploads image and input, creates the core session, polls it, downloads
/// and verifies its receipt, creates the wrapping session on top of the
/// core job, polls it, downloads its result, and hands out the report of
/// what was found: each step once, in this order, with the values that it
/// is owed.
pub proof fn lemma_bento_remote_pipeline(s: BentoView, found: Findings)
    requires
        s.phase == Phase::Executing,
        found.snark_shape != ReceiptShape::Malformed,
    ensures
        bento_answers(s, smooth_events(found)) == smooth_actions(s, found),
        bento_run(s, smooth_events(found)).phase == Phase::Done,
{
    let events = smooth_events(found);
    lemma_smooth_play(s, found);
    lemma_play_is_run(s, events, 11);
    assert(events.take(11) == events);
}

proof fn lemma_smooth_play(s: BentoView, found: Findings)
    requires
        s.phase == Phase::Executing,
        found.snark_shape != ReceiptShape::Malformed,
    ensures
        bento_play(s, smooth_events(found), 11).1 == smooth_actions(s, found),
        bento_play(s, smooth_events(found), 11).0.phase == Phase::Done,
{
    reveal_strlit("SUCCEEDED");
    reveal_strlit("RUNNING");
    assert(classify("SUCCEEDED"@) == JobState::Succeeded) by {
        assert("SUCCEEDED"@.len() == 9);
        assert("RUNNING"@.len() == 7);
    }
    let events = smooth_events(found);
    let expected = smooth_actions(s, found);
    let p0 = bento_play(s, events, 0);
    let p1 = bento_play(s, events, 1);
    assert(p1.0.phase == Phase::Connecting && p1.1 == expected.take(1));
    let p2 = bento_play(s, events, 2);
    assert(p2.0.phase == Phase::UploadingImage && p2.1 == expected.take(2));
    let p3 = bento_play(s, events, 3);
    assert(p3.0.phase == Phase::UploadingInput && p3.1 == expected.take(3));
    let p4 = bento_play(s, events, 4);
    assert(p4.0.phase == Phase::CreatingSession && p4.1 == expected.take(4));
    let p5 = bento_play(s, events, 5);
    assert(p5.0.phase == Phase::PollingCore && p5.1 == expected.take(5));
    let p6 = bento_play(s, events, 6);
    assert(p6.0.phase == Phase::DownloadingReceipt && p6.1 == expected.take(6));
    let p7 = bento_play(s, events, 7);
    assert(p7.0.phase == Phase::VerifyingReceipt && p7.1 == expected.take(7));
    let p8 = bento_play(s, events, 8);
    assert(p8.0.phase == Phase::CreatingSnark && p8.1 == expected.take(8));
    let p9 = bento_play(s, events, 9);
    assert(p9.0.phase == Phase::PollingSnark && p9.1 == expected.take(9));
    let p10 = bento_play(s, events, 10);
    assert(p10.0.phase == Phase::DownloadingSnark && p10.1 == expected.take(10));
    let p11 = bento_play(s, events, 11);
    assert(p11.0.measured == smooth_measurements(s, found));
    assert(p11.0.phase == Phase::Done && p11.1 == expected.take(11));
    assert(expected.take(11) == expected);
}

/// The local start of the pipeline: a run looks for the combined binary
/// and, where it is there, reads it and nothing else; where it is not, the
/// run reads the guest's ELF, writes the combined binary, and reads that.
/// Either way the next event is the binary that the image id is taken of.
pub proof fn lemma_bento_binary_stage(s: BentoView, user_elf: Seq<u8>)
    requires
        s.phase == Phase::Idle,
    ensures
        ({
            let combined = combined_path_of(s.elf_path);
            let found = seq![EventView::Started, EventView::Probed { exists: true }];
            let missing = seq![
                EventView::Started,
                EventView::Probed { exists: false },
                EventView::Loaded { contents: user_elf },
                EventView::Written,
            ];
            &&& bento_answers(s, found) == seq![
                ActionView::Probe { path: combined },
                ActionView::Read { path: combined, role: FileRole::CombinedBinary },
            ]
            &&& bento_run(s, found) == (BentoView { phase: Phase::ReadingBinary, ..s })
            &&& bento_answers(s, missing) == seq![
                ActionView::Probe { path: combined },
                ActionView::Read { path: s.elf_path, role: FileRole::GuestElf },
                ActionView::Write {
                    path: combined,
                    contents: program_binary_blob(user_elf, s.kernel),
                },
                ActionView::Read { path: combined, role: FileRole::CombinedBinary },
            ]
            &&& bento_run(s, missing) == (BentoView { phase: Phase::ReadingBinary, ..s })
        }),
{
    let combined = combined_path_of(s.elf_path);
    let found = seq![EventView::Started, EventView::Probed { exists: true }];
    let missing = seq![
        EventView::Started,
        EventView::Probed { exists: false },
        EventView::Loaded { contents: user_elf },
        EventView::Written,
    ];
    let probe = ActionView::Probe { path: combined };
    let reread = ActionView::Read { path: combined, role: FileRole::CombinedBinary };
    let f0 = bento_play(s, found, 0);
    let f1 = bento_play(s, found, 1);
    assert(f1.0 == (BentoView { phase: Phase::Probing, ..s }) && f1.1 =~= seq![probe]);
    let f2 = bento_play(s, found, 2);
    assert(f2.0 == (BentoView { phase: Phase::ReadingBinary, ..s }) && f2.1 =~= seq![probe, reread]);
    lemma_play_is_run(s, found, 2);
    assert(found.take(2) == found);
    let read = ActionView::Read { path: s.elf_path, role: FileRole::GuestElf };
    let write = ActionView::Write {
        path: combined,
        contents: program_binary_blob(user_elf, s.kernel),
    };
    let m0 = bento_play(s, missing, 0);
    let m1 = bento_play(s, missing, 1);
    assert(m1.0 == (BentoView { phase: Phase::Probing, ..s }) && m1.1 =~= seq![probe]);
    let m2 = bento_play(s, missing, 2);
    assert(m2.0 == (BentoView { phase: Phase::ReadingElf, ..s }) && m2.1 =~= seq![probe, read]);
    let m3 = bento_play(s, missing, 3);
    assert(m3.0 == (BentoView { phase: Phase::WritingBinary, ..s }) && m3.1 =~= seq![
        probe,
        read,
        write,
    ]);
    let m4 = bento_play(s, missing, 4);
    assert(m4.0 == (BentoView { phase: Phase::ReadingBinary, ..s }) && m4.1 =~= seq![
        probe,
        read,
        write,
        reread,
    ]);
    lemma_play_is_run(s, missing, 4);
    assert(missing.take(4) == missing);
}

} // verus!
