//! The evaluator for ZisK, whose prover is a command-line tool.
//!
//! One run launches the tool once and times it from start to exit. The
//! tool shows neither cycles nor proof sizes nor the time of its stages:
//! the report holds the one duration, and zero everywhere else.

use vstd::prelude::*;
use vstd::string::StringExecFns;
use crate::args::{text_view, EvalArgs, EvalArgsView};
use crate::error::{EvalError, EvalErrorView};
use crate::protocol::{Action, ActionView, Argument, ArgumentView, Event, EventView};
use crate::report::{
    lemma_report_is_complete,
    normalized,
    program_label_of,
    BlockLabel,
    Measurements,
    PerformanceReport,
};
use crate::types::ProgramId;
use crate::utils::{elf_path_of, fixture_path, fixture_path_of, get_elf, get_reth_input};

verus! {

/// Where a run stands.
#[derive(Clone, Copy, PartialEq, Eq, Structural, Debug)]
pub enum ZiskPhase {
    Idle,
    Proving,
    Done,
    Failed,
}

/// The state of one run of the ZisK prover.
#[derive(Debug)]
pub struct ZiskEvaluator {
    phase: ZiskPhase,
    label: String,
    prover: String,
    elf_path: String,
    input_path: Option<String>,
    check_exit: bool,
}

/// The mathematical value of a [`ZiskEvaluator`].
pub struct ZiskView {
    pub phase: ZiskPhase,
    /// The label of the program in the report.
    pub label: Seq<char>,
    /// The name of the backend in the report.
    pub prover: Seq<char>,
    /// Where the guest's ELF lies.
    pub elf_path: Seq<char>,
    /// Where the input lies, for a program that takes one.
    pub input_path: Option<Seq<char>>,
    /// Whether an unsuccessful exit of the prover fails the run.
    pub check_exit: bool,
}

impl View for ZiskEvaluator {
    type V = ZiskView;

    closed spec fn view(&self) -> ZiskView {
        ZiskView {
            phase: self.phase,
            label: self.label@,
            prover: self.prover@,
            elf_path: self.elf_path@,
            input_path: text_view(self.input_path),
            check_exit: self.check_exit,
        }
    }
}

/// The fixture that feeds the selected program, or the error for the
/// parameter that names it and is missing.
pub open spec fn zisk_fixture_of(args: EvalArgsView) -> Result<Option<Seq<char>>, EvalErrorView> {
    match args.program {
        ProgramId::Reth => match args.block_number {
            Some(n) => Ok(Some(fixture_path_of("blocks"@, n as nat))),
            None => Err(EvalErrorView::MissingBlockNumber),
        },
        ProgramId::Fibonacci => match args.fibonacci_input {
            Some(n) => Ok(Some(fixture_path_of("fibonacci"@, n as nat))),
            None => Err(EvalErrorView::MissingFibonacciInput),
        },
        _ => Ok(None),
    }
}

/// The run that `args` configure, before its first step, or the error for
/// what `args` lack: the parameter that the label needs, the backend's
/// compiled guest, the parameter that names the input, in this order. This
/// evaluator labels a block by its number.
pub open spec fn zisk_initial(args: EvalArgsView, check_exit: bool) -> Result<
    ZiskView,
    EvalErrorView,
> {
    match program_label_of(args, BlockLabel::Number) {
        Err(e) => Err(e),
        Ok(label) => match elf_path_of(args.program, args.prover) {
            None => Err(EvalErrorView::UnsupportedProver),
            Some(elf_path) => match zisk_fixture_of(args) {
                Err(e) => Err(e),
                Ok(input_path) => Ok(
                    ZiskView {
                        phase: ZiskPhase::Idle,
                        label,
                        prover: args.prover.name(),
                        elf_path,
                        input_path,
                        check_exit,
                    },
                ),
            },
        },
    }
}

/// The arguments that the prover is launched with: `prove`, the guest
/// behind `-e`, the input behind `-i` where there is one, the output
/// directory behind `-o`, and `-a` for the aggregated proof.
pub open spec fn command_of(elf_path: Seq<char>, input_path: Option<Seq<char>>) -> Seq<
    ArgumentView,
> {
    match input_path {
        Some(path) => seq![
            ArgumentView::Word("prove"@),
            ArgumentView::Word("-e"@),
            ArgumentView::Path(elf_path),
            ArgumentView::Word("-i"@),
            ArgumentView::Path(path),
            ArgumentView::Word("-o"@),
            ArgumentView::Word("proof"@),
            ArgumentView::Word("-a"@),
        ],
        None => seq![
            ArgumentView::Word("prove"@),
            ArgumentView::Word("-e"@),
            ArgumentView::Path(elf_path),
            ArgumentView::Word("-o"@),
            ArgumentView::Word("proof"@),
            ArgumentView::Word("-a"@),
        ],
    }
}

/// What a run of the prover measures: how long it took from start to
/// exit. The time of no stage within can be seen from outside.
pub open spec fn zisk_measurements(duration: u128) -> Measurements {
    Measurements {
        shard_size: None,
        shards: None,
        cycles: None,
        execution_duration: None,
        prove_duration: Some(duration),
        core_prove_duration: None,
        core_verify_duration: None,
        core_proof_size: None,
        compress_prove_duration: None,
        compress_verify_duration: None,
        compress_proof_size: None,
        wrap_prove_duration: None,
        groth16_prove_duration: None,
        shrink_prove_duration: None,
    }
}

/// One step of the run: the state after `event`, and the action that
/// answers it.
///
/// The prover is launched on the first event. Its exit ends the run with
/// the report, whatever the exit status, unless the run was set up to
/// check it. A run that is over answers every event with
/// [`EvalError::UnexpectedEvent`] and stays as it is. A failure that the
/// caller reports ends the run with that cause, and so does an event that
/// does not answer the action that was handed out.
pub open spec fn zisk_step(s: ZiskView, event: EventView) -> (ZiskView, ActionView) {
    if s.phase == ZiskPhase::Done || s.phase == ZiskPhase::Failed {
        (s, ActionView::Fail(EvalErrorView::UnexpectedEvent))
    } else if event is Failed {
        (
            ZiskView { phase: ZiskPhase::Failed, ..s },
            ActionView::Fail(EvalErrorView::Outside { cause: event->cause }),
        )
    } else {
        match (s.phase, event) {
            (ZiskPhase::Idle, EventView::Started) => (
                ZiskView { phase: ZiskPhase::Proving, ..s },
                ActionView::Run {
                    program: "cargo-zisk"@,
                    args: command_of(s.elf_path, s.input_path),
                },
            ),
            (ZiskPhase::Proving, EventView::Exited { success, duration }) => if s.check_exit
                && !success {
                (
                    ZiskView { phase: ZiskPhase::Failed, ..s },
                    ActionView::Fail(EvalErrorView::ProverExited),
                )
            } else {
                (
                    ZiskView { phase: ZiskPhase::Done, ..s },
                    ActionView::Finish(normalized(s.label, s.prover, zisk_measurements(duration))),
                )
            },
            _ => (
                ZiskView { phase: ZiskPhase::Failed, ..s },
                ActionView::Fail(EvalErrorView::UnexpectedEvent),
            ),
        }
    }
}

impl ZiskEvaluator {
    /// Sets up a run for `args`. With `check_exit` an unsuccessful exit of
    /// the prover fails the run; without it any exit counts as a completed,
    /// timed proof.
    ///
    /// Fails, before anything is asked of the caller, where `args` lack
    /// what the selected program or the backend needs.
    pub fn new(args: &EvalArgs, check_exit: bool) -> (run: Result<ZiskEvaluator, EvalError>)
        ensures
            match run {
                Ok(r) => zisk_initial(args@, check_exit) == Ok::<ZiskView, EvalErrorView>(r@),
                Err(e) => zisk_initial(args@, check_exit) == Err::<ZiskView, EvalErrorView>(e@),
            },
    {
        let label: String = match PerformanceReport::program_label(args, BlockLabel::Number) {
            Ok(label) => label,
            Err(e) => { return Err(e); },
        };
        let elf_path: String = match get_elf(args) {
            Ok(path) => path,
            Err(e) => { return Err(e); },
        };
        let input_path: Option<String> = match args.program {
            ProgramId::Reth => match get_reth_input(args) {
                Ok(path) => Some(path),
                Err(e) => { return Err(e); },
            },
            ProgramId::Fibonacci => match args.fibonacci_input {
                Some(n) => Some(fixture_path("fibonacci", n as u64)),
                None => { return Err(EvalError::MissingFibonacciInput); },
            },
            _ => None,
        };
        Ok(
            ZiskEvaluator {
                phase: ZiskPhase::Idle,
                label,
                prover: args.prover.to_string(),
                elf_path,
                input_path,
                check_exit,
            },
        )
    }

    /// Where the run stands.
    pub fn phase(&self) -> (phase: ZiskPhase)
        ensures
            phase == self@.phase,
    {
        self.phase
    }

    fn fail(&mut self, error: EvalError) -> (action: Action)
        ensures
            final(self)@ == (ZiskView { phase: ZiskPhase::Failed, ..old(self)@ }),
            action@ == ActionView::Fail(error@),
    {
        self.phase = ZiskPhase::Failed;
        Action::Fail(error)
    }

    fn command(&self) -> (args: Vec<Argument>)
        ensures
            args.deep_view() == command_of(self@.elf_path, self@.input_path),
    {
        let mut args: Vec<Argument> = Vec::new();
        args.push(Argument::Word(String::from_str("prove")));
        args.push(Argument::Word(String::from_str("-e")));
        args.push(Argument::Path(self.elf_path.clone()));
        match &self.input_path {
            Some(path) => {
                args.push(Argument::Word(String::from_str("-i")));
                args.push(Argument::Path(path.clone()));
            },
            None => {},
        }
        args.push(Argument::Word(String::from_str("-o")));
        args.push(Argument::Word(String::from_str("proof")));
        args.push(Argument::Word(String::from_str("-a")));
        assert(args.deep_view() =~= command_of(self@.elf_path, self@.input_path));
        args
    }

    /// Takes in how the last action went and decides the next one.
    ///
    /// The first event of a run is [`Event::Started`]. The run is over
    /// with the first [`Action::Finish`] or [`Action::Fail`].
    pub fn eval(&mut self, event: Event) -> (action: Action)
        ensures
            (final(self)@, action@) == zisk_step(old(self)@, event@),
    {
        if self.phase == ZiskPhase::Done || self.phase == ZiskPhase::Failed {
            return Action::Fail(EvalError::UnexpectedEvent);
        }
        match event {
            Event::Failed { cause } => self.fail(EvalError::Outside { cause }),
            Event::Started => {
                if self.phase == ZiskPhase::Idle {
                    let args: Vec<Argument> = self.command();
                    self.phase = ZiskPhase::Proving;
                    Action::Run { program: String::from_str("cargo-zisk"), args }
                } else {
                    self.fail(EvalError::UnexpectedEvent)
                }
            },
            Event::Exited { success, duration } => {
                if self.phase == ZiskPhase::Proving {
                    if self.check_exit && !success {
                        self.fail(EvalError::ProverExited)
                    } else {
                        let mut measured = Measurements::none();
                        measured.prove_duration = Some(duration);
                        self.phase = ZiskPhase::Done;
                        Action::Finish(
                            PerformanceReport::normalize(
                                self.label.clone(),
                                self.prover.clone(),
                                &measured,
                            ),
                        )
                    }
                } else {
                    self.fail(EvalError::UnexpectedEvent)
                }
            },
            _ => self.fail(EvalError::UnexpectedEvent),
        }
    }
}

/// The state of a run after the given events.
pub open spec fn zisk_run(s: ZiskView, events: Seq<EventView>) -> ZiskView
    decreases events.len(),
{
    if events.len() == 0 {
        s
    } else {
        zisk_step(zisk_run(s, events.drop_last()), events.last()).0
    }
}

/// The action that answers the last of the given events.
pub open spec fn zisk_answer(s: ZiskView, events: Seq<EventView>) -> ActionView
    recommends
        events.len() > 0,
{
    zisk_step(zisk_run(s, events.drop_last()), events.last()).1
}

proof fn lemma_zisk_run_keeps_labels(s: ZiskView, events: Seq<EventView>)
    ensures
        zisk_run(s, events).label == s.label,
        zisk_run(s, events).prover == s.prover,
    decreases events.len(),
{
    if events.len() > 0 {
        lemma_zisk_run_keeps_labels(s, events.drop_last());
    }
}

/// Whatever the events of a run, the report that it ends in is complete:
/// the program's label follows the rule for labels, the backend is the
/// configured one, the proving time is the time that the prover took from
/// start to exit, and every other figure is zero.
pub proof fn lemma_zisk_report_is_complete(
    args: EvalArgsView,
    check_exit: bool,
    events: Seq<EventView>,
)
    requires
        zisk_initial(args, check_exit) is Ok,
        events.len() > 0,
        zisk_answer(zisk_initial(args, check_exit)->Ok_0, events) is Finish,
    ensures
        ({
            let report = zisk_answer(zisk_initial(args, check_exit)->Ok_0, events)->Finish_0;
            &&& program_label_of(args, BlockLabel::Number) == Ok::<Seq<char>, EvalErrorView>(
                report.program,
            )
            &&& report.prover == args.prover.name()
            &&& events.last() is Exited
            &&& report.prove_duration == events.last()->Exited_duration
            &&& report.core_prove_duration == 0
            &&& report.shard_size == 0
            &&& report.shards == 0
            &&& report.cycles == 0
            &&& report.speed == 0
            &&& report.execution_duration == 0
            &&& report.core_verify_duration == 0
            &&& report.core_proof_size == 0
            &&& report.compress_prove_duration == 0
            &&& report.compress_verify_duration == 0
            &&& report.compress_proof_size == 0
            &&& report.core_khz == 0
            &&& report.overall_khz == 0
            &&& report.wrap_prove_duration == 0
            &&& report.groth16_prove_duration == 0
            &&& report.shrink_prove_duration == 0
        }),
{
    let start = zisk_initial(args, check_exit)->Ok_0;
    let before = zisk_run(start, events.drop_last());
    lemma_zisk_run_keeps_labels(start, events.drop_last());
    let duration = events.last()->Exited_duration;
    lemma_report_is_complete(before.label, before.prover, zisk_measurements(duration));
}

/// A run for the block-execution program without a block number, or for
/// Fibonacci without an input size, is refused when it is set up: no
/// evaluator comes to be, so the prover is never launched for it.
pub proof fn lemma_zisk_refuses_missing_input(args: EvalArgsView, check_exit: bool)
    requires
        (args.program == ProgramId::Reth && args.block_number is None) || (args.program
            == ProgramId::Fibonacci && args.fibonacci_input is None),
    ensures
        zisk_initial(args, check_exit) is Err,
{
}

} // verus!
