//! Why an evaluation run ends without a report.

use vstd::prelude::*;
use vstd::string::StringExecFns;

verus! {

/// A fatal condition. None is retried: a run that meets one ends, and no
/// partial report is handed out.
#[derive(Debug)]
pub enum EvalError {
    /// The block-execution program was selected without a block number.
    MissingBlockNumber,
    /// The block-execution program was selected without a block name.
    MissingBlockName,
    /// The Fibonacci program was selected without an input size.
    MissingFibonacciInput,
    /// A remote backend was selected without the address of its service.
    MissingBentoUrl,
    /// No compiled artifact is known for the selected backend.
    UnsupportedProver,
    /// The compiled program is not a binary that an image id can be taken of.
    InvalidImage,
    /// The remote service reported a terminal state other than success.
    JobFailed { job_id: String, message: String },
    /// The job was still running when the allowed number of waits was spent.
    JobTimedOut { job_id: String },
    /// A successful job came without a reference to its result.
    MissingOutput { job_id: String },
    /// The downloaded bytes are no receipt.
    MalformedReceipt,
    /// The downloaded core receipt is not a succinct one.
    UnexpectedReceiptKind,
    /// The downloaded proof does not verify against the program's image id.
    VerificationFailed,
    /// The local prover exited unsuccessfully, and the run was set to care.
    ProverExited,
    /// An outside action could not be performed; `cause` is the caller's word.
    Outside { cause: String },
    /// The event handed in does not answer the action that was handed out.
    UnexpectedEvent,
}

/// The mathematical value of an [`EvalError`].
pub enum EvalErrorView {
    MissingBlockNumber,
    MissingBlockName,
    MissingFibonacciInput,
    MissingBentoUrl,
    UnsupportedProver,
    InvalidImage,
    JobFailed { job_id: Seq<char>, message: Seq<char> },
    JobTimedOut { job_id: Seq<char> },
    MissingOutput { job_id: Seq<char> },
    MalformedReceipt,
    UnexpectedReceiptKind,
    VerificationFailed,
    ProverExited,
    Outside { cause: Seq<char> },
    UnexpectedEvent,
}

impl View for EvalError {
    type V = EvalErrorView;

    open spec fn view(&self) -> EvalErrorView {
        match self {
            EvalError::MissingBlockNumber => EvalErrorView::MissingBlockNumber,
            EvalError::MissingBlockName => EvalErrorView::MissingBlockName,
            EvalError::MissingFibonacciInput => EvalErrorView::MissingFibonacciInput,
            EvalError::MissingBentoUrl => EvalErrorView::MissingBentoUrl,
            EvalError::UnsupportedProver => EvalErrorView::UnsupportedProver,
            EvalError::InvalidImage => EvalErrorView::InvalidImage,
            EvalError::JobFailed { job_id, message } => EvalErrorView::JobFailed {
                job_id: job_id@,
                message: message@,
            },
            EvalError::JobTimedOut { job_id } => EvalErrorView::JobTimedOut { job_id: job_id@ },
            EvalError::MissingOutput { job_id } => EvalErrorView::MissingOutput { job_id: job_id@ },
            EvalError::MalformedReceipt => EvalErrorView::MalformedReceipt,
            EvalError::UnexpectedReceiptKind => EvalErrorView::UnexpectedReceiptKind,
            EvalError::VerificationFailed => EvalErrorView::VerificationFailed,
            EvalError::ProverExited => EvalErrorView::ProverExited,
            EvalError::Outside { cause } => EvalErrorView::Outside { cause: cause@ },
            EvalError::UnexpectedEvent => EvalErrorView::UnexpectedEvent,
        }
    }
}

impl EvalErrorView {
    /// The diagnostic that a run ends with.
    pub open spec fn text(self) -> Seq<char> {
        match self {
            EvalErrorView::MissingBlockNumber => "Block number is required for Reth program"@,
            EvalErrorView::MissingBlockName => "Block name is required for Reth program"@,
            EvalErrorView::MissingFibonacciInput =>
                "Fibonacci input is required for Fibonacci program"@,
            EvalErrorView::MissingBentoUrl => "missing bento url"@,
            EvalErrorView::UnsupportedProver => "prover not supported"@,
            EvalErrorView::InvalidImage => "invalid program image"@,
            EvalErrorView::JobFailed { job_id, message } => "Job failed: "@ + job_id + " - "@
                + message,
            EvalErrorView::JobTimedOut { job_id } => "Job timed out: "@ + job_id,
            EvalErrorView::MissingOutput { job_id } => "Job succeeded without output: "@ + job_id,
            EvalErrorView::MalformedReceipt => "malformed receipt"@,
            EvalErrorView::UnexpectedReceiptKind => "receipt is not succinct"@,
            EvalErrorView::VerificationFailed => "receipt verification failed"@,
            EvalErrorView::ProverExited => "prover exited unsuccessfully"@,
            EvalErrorView::Outside { cause } => cause,
            EvalErrorView::UnexpectedEvent => "unexpected event"@,
        }
    }
}

impl EvalError {
    /// The diagnostic that a run ends with.
    pub fn to_string(&self) -> (s: String)
        ensures
            s@ == self@.text(),
    {
        match self {
            EvalError::MissingBlockNumber => String::from_str(
                "Block number is required for Reth program",
            ),
            EvalError::MissingBlockName => String::from_str(
                "Block name is required for Reth program",
            ),
            EvalError::MissingFibonacciInput => String::from_str(
                "Fibonacci input is required for Fibonacci program",
            ),
            EvalError::MissingBentoUrl => String::from_str("missing bento url"),
            EvalError::UnsupportedProver => String::from_str("prover not supported"),
            EvalError::InvalidImage => String::from_str("invalid program image"),
            EvalError::JobFailed { job_id, message } => {
                let s = String::from_str("Job failed: ").concat(job_id.as_str()).concat(
                    " - ",
                ).concat(message.as_str());
                s
            },
            EvalError::JobTimedOut { job_id } => String::from_str("Job timed out: ").concat(
                job_id.as_str(),
            ),
            EvalError::MissingOutput { job_id } => String::from_str(
                "Job succeeded without output: ",
            ).concat(job_id.as_str()),
            EvalError::MalformedReceipt => String::from_str("malformed receipt"),
            EvalError::UnexpectedReceiptKind => String::from_str("receipt is not succinct"),
            EvalError::VerificationFailed => String::from_str("receipt verification failed"),
            EvalError::ProverExited => String::from_str("prover exited unsuccessfully"),
            EvalError::Outside { cause } => cause.clone(),
            EvalError::UnexpectedEvent => String::from_str("unexpected event"),
        }
    }
}

/// `needle` occurs in `hay` as a run of consecutive characters.
pub open spec fn occurs_in(needle: Seq<char>, hay: Seq<char>) -> bool {
    exists|at: int|
        0 <= at && at + needle.len() <= hay.len() && #[trigger] hay.subrange(
            at,
            at + needle.len(),
        ) == needle
}

/// The diagnostic of a failed job names the job and carries the service's
/// own message.
pub proof fn lemma_job_failure_is_diagnosed(job_id: Seq<char>, message: Seq<char>)
    ensures
        occurs_in(job_id, (EvalErrorView::JobFailed { job_id, message }).text()),
        occurs_in(message, (EvalErrorView::JobFailed { job_id, message }).text()),
{
    let head = "Job failed: "@;
    let mid = " - "@;
    let text = (EvalErrorView::JobFailed { job_id, message }).text();
    assert(text == head + job_id + mid + message);
    let at_id = head.len() as int;
    assert(text.subrange(at_id, at_id + job_id.len()) =~= job_id);
    let at_msg = (head.len() + job_id.len() + mid.len()) as int;
    assert(text.subrange(at_msg, at_msg + message.len()) =~= message);
}

} // verus!
