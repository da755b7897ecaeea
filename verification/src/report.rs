//! The one record that every evaluation ends in.

use vstd::prelude::*;
use vstd::arithmetic::div_mod::{
    lemma_div_basics,
    lemma_div_denominator,
    lemma_div_multiples_vanish_quotient,
    lemma_fundamental_div_mod,
    lemma_mod_bound,
};
use vstd::string::StringExecFns;
use crate::args::{EvalArgs, EvalArgsView};
use crate::error::{EvalError, EvalErrorView};
use crate::text::{decimal, decimal_digits};
use crate::types::ProgramId;

verus! {

/// Nanoseconds in a second.
pub const NANOS_PER_SECOND: u128 = 1_000_000_000;

/// Nanoseconds in a millisecond: the cycles in one millisecond are the
/// clock rate in kHz.
pub const NANOS_PER_MILLISECOND: u128 = 1_000_000;

/// What a backend measured. A backend reports the subset that it can
/// observe and leaves the rest `None`. Durations are in nanoseconds, sizes
/// in bytes.
#[derive(Clone, Copy, Debug)]
pub struct Measurements {
    pub shard_size: Option<u64>,
    pub shards: Option<usize>,
    pub cycles: Option<u64>,
    pub execution_duration: Option<u128>,
    pub prove_duration: Option<u128>,
    pub core_prove_duration: Option<u128>,
    pub core_verify_duration: Option<u128>,
    pub core_proof_size: Option<usize>,
    pub compress_prove_duration: Option<u128>,
    pub compress_verify_duration: Option<u128>,
    pub compress_proof_size: Option<usize>,
    pub wrap_prove_duration: Option<u128>,
    pub groth16_prove_duration: Option<u128>,
    pub shrink_prove_duration: Option<u128>,
}

/// The normalized outcome of one run. Every field holds a value: what a
/// backend cannot observe is zero, never absent, so that reports of
/// different backends compare field by field. Durations are in nanoseconds,
/// sizes in bytes, `speed` in cycles per second, the clock rates in kHz, all
/// three rounded down.
#[derive(Debug)]
pub struct PerformanceReport {
    pub program: String,
    pub prover: String,
    pub shard_size: u64,
    pub shards: usize,
    pub cycles: u64,
    pub speed: u128,
    pub execution_duration: u128,
    pub prove_duration: u128,
    pub core_prove_duration: u128,
    pub core_verify_duration: u128,
    pub core_proof_size: usize,
    pub compress_prove_duration: u128,
    pub compress_verify_duration: u128,
    pub compress_proof_size: usize,
    pub core_khz: u128,
    pub overall_khz: u128,
    pub wrap_prove_duration: u128,
    pub groth16_prove_duration: u128,
    pub shrink_prove_duration: u128,
}

/// The mathematical value of a [`PerformanceReport`].
pub struct ReportView {
    pub program: Seq<char>,
    pub prover: Seq<char>,
    pub shard_size: u64,
    pub shards: usize,
    pub cycles: u64,
    pub speed: u128,
    pub execution_duration: u128,
    pub prove_duration: u128,
    pub core_prove_duration: u128,
    pub core_verify_duration: u128,
    pub core_proof_size: usize,
    pub compress_prove_duration: u128,
    pub compress_verify_duration: u128,
    pub compress_proof_size: usize,
    pub core_khz: u128,
    pub overall_khz: u128,
    pub wrap_prove_duration: u128,
    pub groth16_prove_duration: u128,
    pub shrink_prove_duration: u128,
}

impl View for PerformanceReport {
    type V = ReportView;

    open spec fn view(&self) -> ReportView {
        ReportView {
            program: self.program@,
            prover: self.prover@,
            shard_size: self.shard_size,
            shards: self.shards,
            cycles: self.cycles,
            speed: self.speed,
            execution_duration: self.execution_duration,
            prove_duration: self.prove_duration,
            core_prove_duration: self.core_prove_duration,
            core_verify_duration: self.core_verify_duration,
            core_proof_size: self.core_proof_size,
            compress_prove_duration: self.compress_prove_duration,
            compress_verify_duration: self.compress_verify_duration,
            compress_proof_size: self.compress_proof_size,
            core_khz: self.core_khz,
            overall_khz: self.overall_khz,
            wrap_prove_duration: self.wrap_prove_duration,
            groth16_prove_duration: self.groth16_prove_duration,
            shrink_prove_duration: self.shrink_prove_duration,
        }
    }
}

/// `cycles` in `nanos` nanoseconds, as the number of cycles in `per`
/// nanoseconds, rounded down; zero where no time was measured.
pub open spec fn rate(cycles: u64, nanos: u128, per: u128) -> nat {
    if nanos == 0 {
        0
    } else {
        ((cycles as nat) * (per as nat)) / (nanos as nat)
    }
}

/// What was measured, or zero.
pub open spec fn or_zero<T: Integer>(value: Option<T>) -> int {
    match value {
        Some(v) => v as int,
        None => 0,
    }
}

/// Cycles per second, rounded down.
pub open spec fn cycles_per_second(cycles: u64, nanos: u128) -> nat {
    rate(cycles, nanos, NANOS_PER_SECOND)
}

/// The clock rate in kHz, rounded down: cycles per second, by a thousand.
pub open spec fn clock_khz(cycles: u64, nanos: u128) -> nat {
    rate(cycles, nanos, NANOS_PER_MILLISECOND)
}

/// The label of a program: its name alone, or its name, an underscore and
/// the parameter that tells this run from others of the same program.
pub open spec fn label_of(name: Seq<char>, variant: Option<Seq<char>>) -> Seq<char> {
    match variant {
        Some(v) => name + "_"@ + v,
        None => name,
    }
}

/// By what an evaluator tells the blocks of the block-execution program
/// apart in its labels.
#[derive(Clone, Copy, PartialEq, Eq, Structural, Debug)]
pub enum BlockLabel {
    Name,
    Number,
}

/// The parameter that tells one run of a program from another, or the
/// error for the parameter that is missing: the block for the
/// block-execution program (by name or by number, as the evaluator has
/// it), the input size for Fibonacci, none for the rest.
pub open spec fn variant_of(args: EvalArgsView, block: BlockLabel) -> Result<
    Option<Seq<char>>,
    EvalErrorView,
> {
    match args.program {
        ProgramId::Reth => if block == BlockLabel::Name {
            match args.block_name {
                Some(name) => Ok(Some(name)),
                None => Err(EvalErrorView::MissingBlockName),
            }
        } else {
            match args.block_number {
                Some(number) => Ok(Some(decimal_digits(number as nat))),
                None => Err(EvalErrorView::MissingBlockNumber),
            }
        },
        ProgramId::Fibonacci => match args.fibonacci_input {
            Some(n) => Ok(Some(decimal_digits(n as nat))),
            None => Err(EvalErrorView::MissingFibonacciInput),
        },
        _ => Ok(None),
    }
}

/// The label under which a run with `args` is reported by an evaluator
/// that tells blocks apart by `block`.
pub open spec fn program_label_of(args: EvalArgsView, block: BlockLabel) -> Result<
    Seq<char>,
    EvalErrorView,
> {
    match variant_of(args, block) {
        Ok(variant) => Ok(label_of(args.program.name(), variant)),
        Err(e) => Err(e),
    }
}

/// The report that `measured` normalizes to.
pub open spec fn normalized(program: Seq<char>, prover: Seq<char>, measured: Measurements)
    -> ReportView {
    let cycles = measured.cycles.unwrap_or(0);
    let prove = measured.prove_duration.unwrap_or(0);
    let core_prove = measured.core_prove_duration.unwrap_or(0);
    ReportView {
        program,
        prover,
        shard_size: measured.shard_size.unwrap_or(0),
        shards: measured.shards.unwrap_or(0),
        cycles,
        speed: cycles_per_second(cycles, prove) as u128,
        execution_duration: measured.execution_duration.unwrap_or(0),
        prove_duration: prove,
        core_prove_duration: core_prove,
        core_verify_duration: measured.core_verify_duration.unwrap_or(0),
        core_proof_size: measured.core_proof_size.unwrap_or(0),
        compress_prove_duration: measured.compress_prove_duration.unwrap_or(0),
        compress_verify_duration: measured.compress_verify_duration.unwrap_or(0),
        compress_proof_size: measured.compress_proof_size.unwrap_or(0),
        core_khz: clock_khz(cycles, core_prove) as u128,
        overall_khz: clock_khz(cycles, prove) as u128,
        wrap_prove_duration: measured.wrap_prove_duration.unwrap_or(0),
        groth16_prove_duration: measured.groth16_prove_duration.unwrap_or(0),
        shrink_prove_duration: measured.shrink_prove_duration.unwrap_or(0),
    }
}

/// A rate is the exact quotient rounded down, and the rate in kHz is the
/// rate in cycles per second by a thousand, rounded down.
pub proof fn lemma_clock_rate_is_floor(cycles: u64, nanos: u128)
    requires
        nanos > 0,
    ensures
        clock_khz(cycles, nanos) * nanos <= cycles * NANOS_PER_MILLISECOND,
        cycles * NANOS_PER_MILLISECOND < (clock_khz(cycles, nanos) + 1) * nanos,
        cycles_per_second(cycles, nanos) * nanos <= cycles * NANOS_PER_SECOND,
        cycles * NANOS_PER_SECOND < (cycles_per_second(cycles, nanos) + 1) * nanos,
        clock_khz(cycles, nanos) == cycles_per_second(cycles, nanos) / 1000,
{
    let n = nanos as int;
    let milli = (cycles as int) * 1_000_000;
    let unit = (cycles as int) * 1_000_000_000;
    lemma_fundamental_div_mod(milli, n);
    lemma_mod_bound(milli, n);
    lemma_fundamental_div_mod(unit, n);
    lemma_mod_bound(unit, n);
    assert((milli / n) * n == n * (milli / n)) by (nonlinear_arith);
    assert((milli / n + 1) * n == n * (milli / n) + n) by (nonlinear_arith);
    assert((unit / n) * n == n * (unit / n)) by (nonlinear_arith);
    assert((unit / n + 1) * n == n * (unit / n) + n) by (nonlinear_arith);
    lemma_div_denominator(unit, n, 1000);
    lemma_div_multiples_vanish_quotient(1000, milli, n);
    assert(1000 * milli == unit);
    assert(1000 * n == n * 1000);
}

/// A normalized report holds every field: what was measured where
/// something was, zero where nothing was, and the labels as they were
/// given. Without a cycle count or without a proving time there is no
/// throughput, and the figures derived from them are zero.
pub proof fn lemma_report_is_complete(program: Seq<char>, prover: Seq<char>, measured: Measurements)
    ensures
        ({
            let r = normalized(program, prover, measured);
            &&& r.program == program
            &&& r.prover == prover
            &&& r.shard_size == or_zero(measured.shard_size)
            &&& r.shards == or_zero(measured.shards)
            &&& r.cycles == or_zero(measured.cycles)
            &&& r.execution_duration == or_zero(measured.execution_duration)
            &&& r.prove_duration == or_zero(measured.prove_duration)
            &&& r.core_prove_duration == or_zero(measured.core_prove_duration)
            &&& r.core_verify_duration == or_zero(measured.core_verify_duration)
            &&& r.core_proof_size == or_zero(measured.core_proof_size)
            &&& r.compress_prove_duration == or_zero(measured.compress_prove_duration)
            &&& r.compress_verify_duration == or_zero(measured.compress_verify_duration)
            &&& r.compress_proof_size == or_zero(measured.compress_proof_size)
            &&& r.wrap_prove_duration == or_zero(measured.wrap_prove_duration)
            &&& r.groth16_prove_duration == or_zero(measured.groth16_prove_duration)
            &&& r.shrink_prove_duration == or_zero(measured.shrink_prove_duration)
            &&& r.speed == cycles_per_second(r.cycles, r.prove_duration)
            &&& r.overall_khz == clock_khz(r.cycles, r.prove_duration)
            &&& r.core_khz == clock_khz(r.cycles, r.core_prove_duration)
            &&& (r.cycles == 0 || r.prove_duration == 0) ==> r.speed == 0 && r.overall_khz == 0
            &&& (r.cycles == 0 || r.core_prove_duration == 0) ==> r.core_khz == 0
        }),
{
    let r = normalized(program, prover, measured);
    lemma_rate_fits(r.cycles, r.prove_duration, NANOS_PER_SECOND);
    lemma_rate_fits(r.cycles, r.prove_duration, NANOS_PER_MILLISECOND);
    lemma_rate_fits(r.cycles, r.core_prove_duration, NANOS_PER_MILLISECOND);
    assert(0 * (NANOS_PER_SECOND as nat) == 0);
    assert(0 * (NANOS_PER_MILLISECOND as nat) == 0);
    if r.prove_duration != 0 {
        lemma_div_basics(r.prove_duration as int);
    }
    if r.core_prove_duration != 0 {
        lemma_div_basics(r.core_prove_duration as int);
    }
}

/// The label of a run is the name of its program, followed, for the
/// programs that take a distinguishing parameter, by an underscore and
/// that parameter: the block for the block-execution program, the input
/// size for Fibonacci.
pub proof fn lemma_label_rule(args: EvalArgsView, block: BlockLabel)
    ensures
        match program_label_of(args, block) {
            Ok(label) => match args.program {
                ProgramId::Reth => if block == BlockLabel::Name {
                    args.block_name matches Some(name) && label == "reth"@ + "_"@ + name
                } else {
                    args.block_number matches Some(number) && label == "reth"@ + "_"@
                        + decimal_digits(number as nat)
                },
                ProgramId::Fibonacci => args.fibonacci_input matches Some(n) && label
                    == "fibonacci"@ + "_"@ + decimal_digits(n as nat),
                _ => label == args.program.name(),
            },
            Err(e) => match args.program {
                ProgramId::Reth => if block == BlockLabel::Name {
                    args.block_name is None && e == EvalErrorView::MissingBlockName
                } else {
                    args.block_number is None && e == EvalErrorView::MissingBlockNumber
                },
                ProgramId::Fibonacci => args.fibonacci_input is None && e
                    == EvalErrorView::MissingFibonacciInput,
                _ => false,
            },
        },
{
}

/// A rate fits the 128 bits of the report.
proof fn lemma_rate_fits(cycles: u64, nanos: u128, per: u128)
    requires
        per <= NANOS_PER_SECOND,
    ensures
        rate(cycles, nanos, per) <= 0xffff_ffff_ffff_ffff * 1_000_000_000,
{
    if nanos != 0 {
        let product: int = (cycles as int) * (per as int);
        assert(0 <= product <= 0xffff_ffff_ffff_ffff * 1_000_000_000) by (nonlinear_arith)
            requires
                product == (cycles as int) * (per as int),
                0 <= cycles <= 0xffff_ffff_ffff_ffff,
                0 <= per <= 1_000_000_000,
        ;
        assert(product / (nanos as int) <= product) by (nonlinear_arith)
            requires
                0 <= product,
                nanos >= 1,
        ;
    }
}

fn rate_of(cycles: u64, nanos: u128, per: u128) -> (r: u128)
    requires
        per <= NANOS_PER_SECOND,
    ensures
        r == rate(cycles, nanos, per),
{
    if nanos == 0 {
        0
    } else {
        assert((cycles as nat) * (per as nat) <= 0xffff_ffff_ffff_ffff * 1_000_000_000)
            by (nonlinear_arith)
            requires
                cycles <= 0xffff_ffff_ffff_ffff,
                per <= 1_000_000_000,
        ;
        let product: u128 = (cycles as u128) * per;
        product / nanos
    }
}

impl Measurements {
    /// Nothing measured.
    pub fn none() -> (m: Measurements)
        ensures
            m == (Measurements {
                shard_size: None,
                shards: None,
                cycles: None,
                execution_duration: None,
                prove_duration: None,
                core_prove_duration: None,
                core_verify_duration: None,
                core_proof_size: None,
                compress_prove_duration: None,
                compress_verify_duration: None,
                compress_proof_size: None,
                wrap_prove_duration: None,
                groth16_prove_duration: None,
                shrink_prove_duration: None,
            }),
    {
        Measurements {
            shard_size: None,
            shards: None,
            cycles: None,
            execution_duration: None,
            prove_duration: None,
            core_prove_duration: None,
            core_verify_duration: None,
            core_proof_size: None,
            compress_prove_duration: None,
            compress_verify_duration: None,
            compress_proof_size: None,
            wrap_prove_duration: None,
            groth16_prove_duration: None,
            shrink_prove_duration: None,
        }
    }
}

fn or_zero_u128(value: Option<u128>) -> (r: u128)
    ensures
        r == value.unwrap_or(0),
{
    match value {
        Some(v) => v,
        None => 0,
    }
}

fn or_zero_usize(value: Option<usize>) -> (r: usize)
    ensures
        r == value.unwrap_or(0),
{
    match value {
        Some(v) => v,
        None => 0,
    }
}

fn or_zero_u64(value: Option<u64>) -> (r: u64)
    ensures
        r == value.unwrap_or(0),
{
    match value {
        Some(v) => v,
        None => 0,
    }
}

impl PerformanceReport {
    /// Assembles the complete report from the subset that a backend
    /// measured: what it left out is zero, and the throughput figures are
    /// derived from the cycle count and the proving durations.
    pub fn normalize(program: String, prover: String, measured: &Measurements) -> (report:
        PerformanceReport)
        ensures
            report@ == normalized(program@, prover@, *measured),
    {
        let cycles: u64 = or_zero_u64(measured.cycles);
        let prove: u128 = or_zero_u128(measured.prove_duration);
        let core_prove: u128 = or_zero_u128(measured.core_prove_duration);
        PerformanceReport {
            program,
            prover,
            shard_size: or_zero_u64(measured.shard_size),
            shards: or_zero_usize(measured.shards),
            cycles,
            speed: rate_of(cycles, prove, NANOS_PER_SECOND),
            execution_duration: or_zero_u128(measured.execution_duration),
            prove_duration: prove,
            core_prove_duration: core_prove,
            core_verify_duration: or_zero_u128(measured.core_verify_duration),
            core_proof_size: or_zero_usize(measured.core_proof_size),
            compress_prove_duration: or_zero_u128(measured.compress_prove_duration),
            compress_verify_duration: or_zero_u128(measured.compress_verify_duration),
            compress_proof_size: or_zero_usize(measured.compress_proof_size),
            core_khz: rate_of(cycles, core_prove, NANOS_PER_MILLISECOND),
            overall_khz: rate_of(cycles, prove, NANOS_PER_MILLISECOND),
            wrap_prove_duration: or_zero_u128(measured.wrap_prove_duration),
            groth16_prove_duration: or_zero_u128(measured.groth16_prove_duration),
            shrink_prove_duration: or_zero_u128(measured.shrink_prove_duration),
        }
    }

    /// The label under which a run with `args` is reported by an evaluator
    /// that tells blocks apart by `block`, or the error for the parameter
    /// that the selected program lacks.
    pub fn program_label(args: &EvalArgs, block: BlockLabel) -> (label: Result<String, EvalError>)
        ensures
            match label {
                Ok(l) => program_label_of(args@, block) == Ok::<Seq<char>, EvalErrorView>(l@),
                Err(e) => program_label_of(args@, block) == Err::<Seq<char>, EvalErrorView>(e@),
            },
    {
        let name: String = args.program.to_string();
        match args.program {
            ProgramId::Reth => {
                if block == BlockLabel::Name {
                    match &args.block_name {
                        Some(block) => Ok(name.concat("_").concat(block.as_str())),
                        None => Err(EvalError::MissingBlockName),
                    }
                } else {
                    match args.block_number {
                        Some(number) => {
                            let digits: String = decimal(number);
                            Ok(name.concat("_").concat(digits.as_str()))
                        },
                        None => Err(EvalError::MissingBlockNumber),
                    }
                }
            },
            ProgramId::Fibonacci => match args.fibonacci_input {
                Some(n) => {
                    let digits: String = decimal(n as u64);
                    Ok(name.concat("_").concat(digits.as_str()))
                },
                None => Err(EvalError::MissingFibonacciInput),
            },
            _ => Ok(name),
        }
    }
}

} // verus!
