//! The words that an evaluator and its caller exchange.
//!
//! An evaluator hands out an [`Action`]; the caller performs it and hands
//! back the [`Event`] that tells how it went. The caller holds the network
//! client, the file system, the clock and the subprocess; the evaluator
//! holds every decision.

use vstd::prelude::*;
use crate::error::{EvalError, EvalErrorView};
use crate::job::{StatusReply, StatusView};
use crate::report::{PerformanceReport, ReportView};

verus! {

/// What a file is to the run that reads it.
#[derive(Clone, Copy, PartialEq, Eq, Structural, Debug)]
pub enum FileRole {
    /// The guest's ELF, as it was compiled.
    GuestElf,
    /// The combined binary of kernel and guest.
    CombinedBinary,
    /// The block that the block-execution program runs.
    BlockFixture,
}

/// What decoding a downloaded receipt showed.
#[derive(Clone, Copy, PartialEq, Eq, Structural, Debug)]
pub enum ReceiptShape {
    /// The bytes are no receipt.
    Malformed,
    /// A receipt, but not a succinct one.
    NotSuccinct,
    /// A succinct receipt, with a seal of this many words.
    Succinct { seal_words: usize },
}

/// One argument of a command line.
#[derive(Debug)]
pub enum Argument {
    /// Passed on as it is.
    Word(String),
    /// A path from the working directory.
    Path(String),
}

/// The mathematical value of an [`Argument`].
pub enum ArgumentView {
    Word(Seq<char>),
    Path(Seq<char>),
}

impl DeepView for Argument {
    type V = ArgumentView;

    open spec fn deep_view(&self) -> ArgumentView {
        match self {
            Argument::Word(word) => ArgumentView::Word(word@),
            Argument::Path(path) => ArgumentView::Path(path@),
        }
    }
}

/// What the caller does next. Every path is one from the working
/// directory.
#[derive(Debug)]
pub enum Action {
    /// Find out whether the file at `path` exists.
    Probe { path: String },
    /// Read the file at `path`.
    Read { path: String, role: FileRole },
    /// Write `contents` to the file at `path`.
    Write { path: String, contents: Vec<u8> },
    /// Execute the guest locally, without proving, and count its cycles.
    Execute { elf: Vec<u8>, input: Vec<u8>, segment_limit_po2: u32 },
    /// Set up the client of the proving service at `url`, with the key that
    /// the service asks for.
    Connect { url: String, api_key: String },
    /// Upload the program image under its id.
    UploadImage { image_id: String, elf: Vec<u8> },
    /// Upload the input; the service answers with a reference to it.
    UploadInput { input: Vec<u8> },
    /// Create the core proving session on the uploaded image and input,
    /// under the given assumptions, and start the clock of the stage.
    /// With `execute_only` the service would execute without proving.
    CreateSession {
        image_id: String,
        input_id: String,
        assumptions: Vec<String>,
        execute_only: bool,
    },
    /// Ask for the status of the core proving session.
    PollSession { job_id: String },
    /// Pause.
    Sleep { millis: u64 },
    /// Download the receipt of the core proving session, and decode it.
    DownloadReceipt { job_id: String },
    /// Verify the receipt against the image id, given as the bytes of its
    /// digest, and time the verification.
    Verify { receipt: Vec<u8>, image_digest: Vec<u8> },
    /// Create the wrapping session on top of the core session, and start
    /// the clock of the stage.
    CreateSnark { job_id: String },
    /// Ask for the status of the wrapping session.
    PollSnark { job_id: String },
    /// Download the result that a status reply referred to, and decode it
    /// as a receipt.
    Download { url: String },
    /// Launch `program` with `args`, wait for its exit, and time it.
    Run { program: String, args: Vec<Argument> },
    /// The run is over: this is its report.
    Finish(PerformanceReport),
    /// The run is over: it failed.
    Fail(EvalError),
}

/// How the last action went.
#[derive(Debug)]
pub enum Event {
    /// Nothing was asked yet: the run begins.
    Started,
    Probed { exists: bool },
    Loaded { contents: Vec<u8> },
    Written,
    /// The guest ran for `cycles` user cycles in `duration` nanoseconds.
    Executed { cycles: u64, duration: u128 },
    Connected,
    ImageUploaded,
    InputUploaded { input_id: String },
    SessionCreated { job_id: String },
    /// The service's reply, `elapsed` nanoseconds into the stage.
    Status { reply: StatusReply, elapsed: u128 },
    Slept,
    /// What was downloaded, and what decoding it as a receipt showed.
    Downloaded { contents: Vec<u8>, shape: ReceiptShape },
    /// The verdict of the verification, which took `duration` nanoseconds.
    Verified { valid: bool, duration: u128 },
    SnarkCreated { job_id: String },
    /// The subprocess exited after `duration` nanoseconds.
    Exited { success: bool, duration: u128 },
    /// The action could not be performed.
    Failed { cause: String },
}

/// The mathematical value of an [`Action`].
pub enum ActionView {
    Probe { path: Seq<char> },
    Read { path: Seq<char>, role: FileRole },
    Write { path: Seq<char>, contents: Seq<u8> },
    Execute { elf: Seq<u8>, input: Seq<u8>, segment_limit_po2: u32 },
    Connect { url: Seq<char>, api_key: Seq<char> },
    UploadImage { image_id: Seq<char>, elf: Seq<u8> },
    UploadInput { input: Seq<u8> },
    CreateSession {
        image_id: Seq<char>,
        input_id: Seq<char>,
        assumptions: Seq<Seq<char>>,
        execute_only: bool,
    },
    PollSession { job_id: Seq<char> },
    Sleep { millis: u64 },
    DownloadReceipt { job_id: Seq<char> },
    Verify { receipt: Seq<u8>, image_digest: Seq<u8> },
    CreateSnark { job_id: Seq<char> },
    PollSnark { job_id: Seq<char> },
    Download { url: Seq<char> },
    Run { program: Seq<char>, args: Seq<ArgumentView> },
    Finish(ReportView),
    Fail(EvalErrorView),
}

/// The mathematical value of an [`Event`].
pub enum EventView {
    Started,
    Probed { exists: bool },
    Loaded { contents: Seq<u8> },
    Written,
    Executed { cycles: u64, duration: u128 },
    Connected,
    ImageUploaded,
    InputUploaded { input_id: Seq<char> },
    SessionCreated { job_id: Seq<char> },
    Status { reply: StatusView, elapsed: u128 },
    Slept,
    Downloaded { contents: Seq<u8>, shape: ReceiptShape },
    Verified { valid: bool, duration: u128 },
    SnarkCreated { job_id: Seq<char> },
    Exited { success: bool, duration: u128 },
    Failed { cause: Seq<char> },
}

impl View for Action {
    type V = ActionView;

    open spec fn view(&self) -> ActionView {
        match self {
            Action::Probe { path } => ActionView::Probe { path: path@ },
            Action::Read { path, role } => ActionView::Read { path: path@, role: *role },
            Action::Write { path, contents } => ActionView::Write {
                path: path@,
                contents: contents@,
            },
            Action::Execute { elf, input, segment_limit_po2 } => ActionView::Execute {
                elf: elf@,
                input: input@,
                segment_limit_po2: *segment_limit_po2,
            },
            Action::Connect { url, api_key } => ActionView::Connect {
                url: url@,
                api_key: api_key@,
            },
            Action::UploadImage { image_id, elf } => ActionView::UploadImage {
                image_id: image_id@,
                elf: elf@,
            },
            Action::UploadInput { input } => ActionView::UploadInput { input: input@ },
            Action::CreateSession {
                image_id,
                input_id,
                assumptions,
                execute_only,
            } => ActionView::CreateSession {
                image_id: image_id@,
                input_id: input_id@,
                assumptions: assumptions.deep_view(),
                execute_only: *execute_only,
            },
            Action::PollSession { job_id } => ActionView::PollSession { job_id: job_id@ },
            Action::Sleep { millis } => ActionView::Sleep { millis: *millis },
            Action::DownloadReceipt { job_id } => ActionView::DownloadReceipt { job_id: job_id@ },
            Action::Verify { receipt, image_digest } => ActionView::Verify {
                receipt: receipt@,
                image_digest: image_digest@,
            },
            Action::CreateSnark { job_id } => ActionView::CreateSnark { job_id: job_id@ },
            Action::PollSnark { job_id } => ActionView::PollSnark { job_id: job_id@ },
            Action::Download { url } => ActionView::Download { url: url@ },
            Action::Run { program, args } => ActionView::Run {
                program: program@,
                args: args.deep_view(),
            },
            Action::Finish(report) => ActionView::Finish(report@),
            Action::Fail(e) => ActionView::Fail(e@),
        }
    }
}

impl View for Event {
    type V = EventView;

    open spec fn view(&self) -> EventView {
        match self {
            Event::Started => EventView::Started,
            Event::Probed { exists } => EventView::Probed { exists: *exists },
            Event::Loaded { contents } => EventView::Loaded { contents: contents@ },
            Event::Written => EventView::Written,
            Event::Executed { cycles, duration } => EventView::Executed {
                cycles: *cycles,
                duration: *duration,
            },
            Event::Connected => EventView::Connected,
            Event::ImageUploaded => EventView::ImageUploaded,
            Event::InputUploaded { input_id } => EventView::InputUploaded { input_id: input_id@ },
            Event::SessionCreated { job_id } => EventView::SessionCreated { job_id: job_id@ },
            Event::Status { reply, elapsed } => EventView::Status {
                reply: reply@,
                elapsed: *elapsed,
            },
            Event::Slept => EventView::Slept,
            Event::Downloaded { contents, shape } => EventView::Downloaded {
                contents: contents@,
                shape: *shape,
            },
            Event::Verified { valid, duration } => EventView::Verified {
                valid: *valid,
                duration: *duration,
            },
            Event::SnarkCreated { job_id } => EventView::SnarkCreated { job_id: job_id@ },
            Event::Exited { success, duration } => EventView::Exited {
                success: *success,
                duration: *duration,
            },
            Event::Failed { cause } => EventView::Failed { cause: cause@ },
        }
    }
}

impl ActionView {
    /// Whether the action reaches out to the proving service or launches a
    /// subprocess.
    pub open spec fn is_remote_or_subprocess(self) -> bool {
        match self {
            ActionView::Connect { .. }
            | ActionView::UploadImage { .. }
            | ActionView::UploadInput { .. }
            | ActionView::CreateSession { .. }
            | ActionView::PollSession { .. }
            | ActionView::DownloadReceipt { .. }
            | ActionView::CreateSnark { .. }
            | ActionView::PollSnark { .. }
            | ActionView::Download { .. }
            | ActionView::Run { .. } => true,
            _ => false,
        }
    }
}

} // verus!
