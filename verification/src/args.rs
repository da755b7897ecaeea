//! What one evaluation run is configured with.

use vstd::prelude::*;
use crate::types::{ProgramId, ProverId};

verus! {

/// The configuration of one run: built once, read-only afterwards.
#[derive(Debug)]
pub struct EvalArgs {
    pub program: ProgramId,
    pub prover: ProverId,
    /// Input size of the Fibonacci program.
    pub fibonacci_input: Option<u32>,
    /// Number of the block that the block-execution program runs.
    pub block_number: Option<u64>,
    /// Name under which that block is reported.
    pub block_name: Option<String>,
    /// Shard or segment size, as its power of two.
    pub shard_size: u64,
    /// Address of the remote proving service.
    pub bento_url: Option<String>,
}

/// The mathematical value of an optional text.
pub open spec fn text_view(text: Option<String>) -> Option<Seq<char>> {
    match text {
        Some(t) => Some(t@),
        None => None,
    }
}

/// The mathematical value of [`EvalArgs`].
pub struct EvalArgsView {
    pub program: ProgramId,
    pub prover: ProverId,
    pub fibonacci_input: Option<u32>,
    pub block_number: Option<u64>,
    pub block_name: Option<Seq<char>>,
    pub shard_size: u64,
    pub bento_url: Option<Seq<char>>,
}

impl View for EvalArgs {
    type V = EvalArgsView;

    open spec fn view(&self) -> EvalArgsView {
        EvalArgsView {
            program: self.program,
            prover: self.prover,
            fibonacci_input: self.fibonacci_input,
            block_number: self.block_number,
            block_name: text_view(self.block_name),
            shard_size: self.shard_size,
            bento_url: text_view(self.bento_url),
        }
    }
}

} // verus!
