//! The evaluator of a run, whichever backend it is for.

use vstd::prelude::*;
use crate::args::{EvalArgs, EvalArgsView};
use crate::bento::{
    bento_answer,
    bento_initial,
    bento_run,
    bento_step,
    lemma_bento_report_is_complete,
    BentoEvaluator,
    BentoView,
};
use crate::error::{EvalError, EvalErrorView};
use crate::job::PollPolicy;
use crate::protocol::{Action, ActionView, Event, EventView};
use crate::report::{program_label_of, BlockLabel};
use crate::types::{ProgramId, ProverId};
use crate::zisk::{
    lemma_zisk_report_is_complete,
    zisk_answer,
    zisk_initial,
    zisk_run,
    zisk_step,
    ZiskEvaluator,
    ZiskView,
};

verus! {

/// How a run is carried out, beyond what it evaluates.
#[derive(Debug)]
pub struct RunOptions {
    /// The kernel that a RISC Zero guest is combined with.
    pub kernel: Vec<u8>,
    /// How remote jobs are polled.
    pub policy: PollPolicy,
    /// Whether an unsuccessful exit of a command-line prover fails the run.
    pub check_exit: bool,
}

/// The evaluator of one run, of the backend that the run selected.
#[derive(Debug)]
pub enum Evaluator {
    Bento(BentoEvaluator),
    Zisk(ZiskEvaluator),
}

/// The mathematical value of an [`Evaluator`].
pub enum EvaluatorView {
    Bento(BentoView),
    Zisk(ZiskView),
}

impl View for Evaluator {
    type V = EvaluatorView;

    open spec fn view(&self) -> EvaluatorView {
        match self {
            Evaluator::Bento(run) => EvaluatorView::Bento(run@),
            Evaluator::Zisk(run) => EvaluatorView::Zisk(run@),
        }
    }
}

/// The evaluator that `args` select, before its first step; the error of
/// its backend for what `args` lack; or [`EvalError::UnsupportedProver`]
/// for a backend that has no evaluator.
pub open spec fn selected(
    args: EvalArgsView,
    kernel: Seq<u8>,
    policy: PollPolicy,
    check_exit: bool,
) -> Result<EvaluatorView, EvalErrorView> {
    match args.prover {
        ProverId::Bento => match bento_initial(args, kernel, policy) {
            Ok(run) => Ok(EvaluatorView::Bento(run)),
            Err(e) => Err(e),
        },
        ProverId::Zisk => match zisk_initial(args, check_exit) {
            Ok(run) => Ok(EvaluatorView::Zisk(run)),
            Err(e) => Err(e),
        },
        _ => Err(EvalErrorView::UnsupportedProver),
    }
}

/// One step of the run: the step of its backend.
pub open spec fn evaluator_step(s: EvaluatorView, event: EventView) -> (EvaluatorView, ActionView) {
    match s {
        EvaluatorView::Bento(run) => (
            EvaluatorView::Bento(bento_step(run, event).0),
            bento_step(run, event).1,
        ),
        EvaluatorView::Zisk(run) => (
            EvaluatorView::Zisk(zisk_step(run, event).0),
            zisk_step(run, event).1,
        ),
    }
}

/// The state of a run after the given events.
pub open spec fn evaluator_run(s: EvaluatorView, events: Seq<EventView>) -> EvaluatorView
    decreases events.len(),
{
    if events.len() == 0 {
        s
    } else {
        evaluator_step(evaluator_run(s, events.drop_last()), events.last()).0
    }
}

/// The action that answers the last of the given events.
pub open spec fn evaluator_answer(s: EvaluatorView, events: Seq<EventView>) -> ActionView
    recommends
        events.len() > 0,
{
    evaluator_step(evaluator_run(s, events.drop_last()), events.last()).1
}

proof fn lemma_run_is_the_backends(s: EvaluatorView, events: Seq<EventView>)
    ensures
        match s {
            EvaluatorView::Bento(run) => evaluator_run(s, events) == EvaluatorView::Bento(
                bento_run(run, events),
            ),
            EvaluatorView::Zisk(run) => evaluator_run(s, events) == EvaluatorView::Zisk(
                zisk_run(run, events),
            ),
        },
    decreases events.len(),
{
    if events.len() > 0 {
        lemma_run_is_the_backends(s, events.drop_last());
    }
}

/// By what the evaluator of a backend tells blocks apart in its labels: the
/// Bento evaluator by their names, the others by their numbers.
pub open spec fn block_label_of(prover: ProverId) -> BlockLabel {
    if prover == ProverId::Bento {
        BlockLabel::Name
    } else {
        BlockLabel::Number
    }
}

/// For every program and every backend that has an evaluator, and
/// whatever the events of the run: the report that the run ends in is
/// labelled by the rule for labels and names the selected backend.
pub proof fn lemma_every_report_is_labelled(
    args: EvalArgsView,
    kernel: Seq<u8>,
    policy: PollPolicy,
    check_exit: bool,
    events: Seq<EventView>,
)
    requires
        selected(args, kernel, policy, check_exit) is Ok,
        events.len() > 0,
        evaluator_answer(selected(args, kernel, policy, check_exit)->Ok_0, events) is Finish,
    ensures
        ({
            let report = evaluator_answer(
                selected(args, kernel, policy, check_exit)->Ok_0,
                events,
            )->Finish_0;
            &&& program_label_of(args, block_label_of(args.prover)) == Ok::<
                Seq<char>,
                EvalErrorView,
            >(report.program)
            &&& report.prover == args.prover.name()
        }),
{
    let start = selected(args, kernel, policy, check_exit)->Ok_0;
    lemma_run_is_the_backends(start, events.drop_last());
    match start {
        EvaluatorView::Bento(run) => {
            assert(bento_answer(run, events) == evaluator_answer(start, events));
            lemma_bento_report_is_complete(args, kernel, policy, events);
        },
        EvaluatorView::Zisk(run) => {
            assert(zisk_answer(run, events) == evaluator_answer(start, events));
            lemma_zisk_report_is_complete(args, check_exit, events);
        },
    }
}

/// Whatever the backend: a run for the block-execution program without a
/// block number, or for Fibonacci without an input size, is refused when
/// it is set up. No evaluator comes to be for it, so nothing is ever asked
/// of the service or of a subprocess on its behalf.
pub proof fn lemma_missing_input_is_refused(
    args: EvalArgsView,
    kernel: Seq<u8>,
    policy: PollPolicy,
    check_exit: bool,
)
    requires
        (args.program == ProgramId::Reth && args.block_number is None) || (args.program
            == ProgramId::Fibonacci && args.fibonacci_input is None),
    ensures
        selected(args, kernel, policy, check_exit) is Err,
{
}

/// No run begins by reaching for the service or for a subprocess, but for
/// the command-line prover's, which has nothing else to do.
pub proof fn lemma_first_action(
    args: EvalArgsView,
    kernel: Seq<u8>,
    policy: PollPolicy,
    check_exit: bool,
)
    requires
        selected(args, kernel, policy, check_exit) is Ok,
    ensures
        ({
            let first = evaluator_step(
                selected(args, kernel, policy, check_exit)->Ok_0,
                EventView::Started,
            ).1;
            match args.prover {
                ProverId::Bento => first is Probe,
                _ => first is Run,
            }
        }),
{
}

impl Evaluator {
    /// Sets up the evaluator of the backend that `args` select.
    ///
    /// Fails, before anything is asked of the caller, where `args` lack
    /// what the selected program or the backend needs, and for a backend
    /// that has no evaluator.
    pub fn select(args: &EvalArgs, options: RunOptions) -> (run: Result<Evaluator, EvalError>)
        ensures
            match run {
                Ok(r) => selected(args@, options.kernel@, options.policy, options.check_exit)
                    == Ok::<EvaluatorView, EvalErrorView>(r@),
                Err(e) => selected(args@, options.kernel@, options.policy, options.check_exit)
                    == Err::<EvaluatorView, EvalErrorView>(e@),
            },
    {
        match args.prover {
            ProverId::Bento => match BentoEvaluator::new(args, options.kernel, options.policy) {
                Ok(run) => Ok(Evaluator::Bento(run)),
                Err(e) => Err(e),
            },
            ProverId::Zisk => match ZiskEvaluator::new(args, options.check_exit) {
                Ok(run) => Ok(Evaluator::Zisk(run)),
                Err(e) => Err(e),
            },
            _ => Err(EvalError::UnsupportedProver),
        }
    }

    /// Takes in how the last action went and decides the next one, as the
    /// evaluator of the selected backend does.
    pub fn eval(&mut self, event: Event) -> (action: Action)
        ensures
            (final(self)@, action@) == evaluator_step(old(self)@, event@),
    {
        match self {
            Evaluator::Bento(run) => run.eval(event),
            Evaluator::Zisk(run) => run.eval(event),
        }
    }
}

} // verus!
