use zkvm_eval::protocol::{Action, Argument, Event};
use zkvm_eval::zisk::{ZiskEvaluator, ZiskPhase};
use zkvm_eval::{EvalArgs, EvalError, ProgramId, ProverId};

fn args(program: ProgramId) -> EvalArgs {
    EvalArgs {
        program,
        prover: ProverId::Zisk,
        fibonacci_input: None,
        block_number: None,
        block_name: None,
        shard_size: 21,
        bento_url: None,
    }
}

/// The program and its arguments, each path marked by `path:`.
fn command(run: &mut ZiskEvaluator) -> (String, Vec<String>) {
    match run.eval(Event::Started) {
        Action::Run { program, args } => {
            let words = args
                .into_iter()
                .map(|arg| match arg {
                    Argument::Word(word) => word,
                    Argument::Path(path) => format!("path:{}", path),
                })
                .collect();
            (program, words)
        }
        other => panic!("unexpected action {:?}", other),
    }
}

#[test]
fn the_prover_is_launched_on_the_guest() {
    let mut run = ZiskEvaluator::new(&args(ProgramId::Loop), false).unwrap();
    assert_eq!(run.phase(), ZiskPhase::Idle);
    let (program, arguments) = command(&mut run);
    assert_eq!(run.phase(), ZiskPhase::Proving);
    assert_eq!(program, "cargo-zisk");
    assert_eq!(
        arguments,
        vec![
            "prove",
            "-e",
            "path:benchmarks/loop/target/riscv64ima-polygon-ziskos-elf/release/loop",
            "-o",
            "proof",
            "-a",
        ]
    );
}

#[test]
fn fibonacci_is_launched_with_its_fixture() {
    let mut a = args(ProgramId::Fibonacci);
    a.fibonacci_input = Some(300);
    let mut run = ZiskEvaluator::new(&a, false).unwrap();
    let (_, arguments) = command(&mut run);
    assert_eq!(
        arguments,
        vec![
            "prove",
            "-e",
            "path:benchmarks/fibonacci/target/riscv64ima-polygon-ziskos-elf/release/fibonacci",
            "-i",
            "path:eval/fibonacci/300.bin",
            "-o",
            "proof",
            "-a",
        ]
    );
}

#[test]
fn reth_is_launched_with_its_block() {
    let mut a = args(ProgramId::Reth);
    a.block_number = Some(17106222);
    let mut run = ZiskEvaluator::new(&a, false).unwrap();
    let (_, arguments) = command(&mut run);
    assert_eq!(
        arguments,
        vec![
            "prove",
            "-e",
            "path:benchmarks/reth-zisk/target/riscv64ima-polygon-ziskos-elf/release/reth-zisk",
            "-i",
            "path:eval/blocks/17106222.bin",
            "-o",
            "proof",
            "-a",
        ]
    );
}

#[test]
fn the_report_holds_the_one_duration() {
    let mut a = args(ProgramId::Reth);
    a.block_number = Some(17106222);
    let mut run = ZiskEvaluator::new(&a, false).unwrap();
    command(&mut run);
    let report = match run.eval(Event::Exited { success: true, duration: 90_000_000_000 }) {
        Action::Finish(report) => report,
        other => panic!("unexpected action {:?}", other),
    };
    assert_eq!(run.phase(), ZiskPhase::Done);
    assert_eq!(report.program, "reth_17106222");
    assert_eq!(report.prover, "zisk");
    assert_eq!(report.prove_duration, 90_000_000_000);
    assert_eq!(report.core_prove_duration, 0);
    assert_eq!(report.shard_size, 0);
    assert_eq!(report.shards, 0);
    assert_eq!(report.cycles, 0);
    assert_eq!(report.speed, 0);
    assert_eq!(report.execution_duration, 0);
    assert_eq!(report.core_verify_duration, 0);
    assert_eq!(report.core_proof_size, 0);
    assert_eq!(report.compress_prove_duration, 0);
    assert_eq!(report.compress_verify_duration, 0);
    assert_eq!(report.compress_proof_size, 0);
    assert_eq!(report.core_khz, 0);
    assert_eq!(report.overall_khz, 0);
    assert_eq!(report.wrap_prove_duration, 0);
    assert_eq!(report.groth16_prove_duration, 0);
    assert_eq!(report.shrink_prove_duration, 0);
}

#[test]
fn an_unsuccessful_exit_is_a_timed_run_by_default() {
    let mut run = ZiskEvaluator::new(&args(ProgramId::Loop), false).unwrap();
    command(&mut run);
    match run.eval(Event::Exited { success: false, duration: 5 }) {
        Action::Finish(report) => {
            assert_eq!(report.program, "loop");
            assert_eq!(report.prove_duration, 5);
        }
        other => panic!("unexpected action {:?}", other),
    }
}

#[test]
fn an_unsuccessful_exit_fails_a_run_that_checks() {
    let mut run = ZiskEvaluator::new(&args(ProgramId::Loop), true).unwrap();
    command(&mut run);
    let action = run.eval(Event::Exited { success: false, duration: 5 });
    assert!(matches!(action, Action::Fail(EvalError::ProverExited)));
    assert_eq!(run.phase(), ZiskPhase::Failed);
    let mut run = ZiskEvaluator::new(&args(ProgramId::Loop), true).unwrap();
    command(&mut run);
    let action = run.eval(Event::Exited { success: true, duration: 5 });
    assert!(matches!(action, Action::Finish(_)));
}

#[test]
fn a_prover_that_cannot_be_launched_fails_the_run() {
    let mut run = ZiskEvaluator::new(&args(ProgramId::Loop), false).unwrap();
    command(&mut run);
    let action = run.eval(Event::Failed { cause: "Failed to execute cargo-zisk command".to_string() });
    match action {
        Action::Fail(error) => assert_eq!(error.to_string(), "Failed to execute cargo-zisk command"),
        other => panic!("unexpected action {:?}", other),
    }
}

#[test]
fn zisk_refuses_reth_without_block_number() {
    let refused = ZiskEvaluator::new(&args(ProgramId::Reth), false);
    assert!(matches!(refused, Err(EvalError::MissingBlockNumber)));
}

#[test]
fn zisk_refuses_fibonacci_without_input() {
    let refused = ZiskEvaluator::new(&args(ProgramId::Fibonacci), false);
    assert!(matches!(refused, Err(EvalError::MissingFibonacciInput)));
}

#[test]
fn zisk_answers_nothing_out_of_turn() {
    let mut run = ZiskEvaluator::new(&args(ProgramId::Loop), false).unwrap();
    let action = run.eval(Event::Exited { success: true, duration: 5 });
    assert!(matches!(action, Action::Fail(EvalError::UnexpectedEvent)));
    assert_eq!(run.phase(), ZiskPhase::Failed);
    assert!(matches!(run.eval(Event::Started), Action::Fail(EvalError::UnexpectedEvent)));
    let mut run = ZiskEvaluator::new(&args(ProgramId::Loop), false).unwrap();
    command(&mut run);
    run.eval(Event::Exited { success: true, duration: 5 });
    assert!(matches!(run.eval(Event::Started), Action::Fail(EvalError::UnexpectedEvent)));
    assert_eq!(run.phase(), ZiskPhase::Done);
}

#[test]
fn zisk_labels_a_block_by_its_number_whatever_the_prover() {
    let mut a = args(ProgramId::Reth);
    a.prover = ProverId::Bento;
    a.block_number = Some(7);
    let mut run = ZiskEvaluator::new(&a, false).unwrap();
    command(&mut run);
    match run.eval(Event::Exited { success: true, duration: 1 }) {
        Action::Finish(report) => {
            assert_eq!(report.program, "reth_7");
            assert_eq!(report.prover, "bento");
        }
        other => panic!("unexpected action {:?}", other),
    }
    a.block_number = None;
    a.block_name = Some("shanghai".to_string());
    assert!(matches!(ZiskEvaluator::new(&a, false), Err(EvalError::MissingBlockNumber)));
}
