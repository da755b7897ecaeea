use std::time::{Duration, Instant};
use zkvm_eval::utils::time_operation;
use zkvm_eval::{Measurements, PerformanceReport};

fn report(measured: &Measurements) -> PerformanceReport {
    PerformanceReport::normalize("loop".to_string(), "bento".to_string(), measured)
}

#[test]
fn nothing_measured_is_all_zero() {
    let r = report(&Measurements::none());
    assert_eq!(r.program, "loop");
    assert_eq!(r.prover, "bento");
    assert_eq!(r.shard_size, 0);
    assert_eq!(r.shards, 0);
    assert_eq!(r.cycles, 0);
    assert_eq!(r.speed, 0);
    assert_eq!(r.execution_duration, 0);
    assert_eq!(r.prove_duration, 0);
    assert_eq!(r.core_prove_duration, 0);
    assert_eq!(r.core_verify_duration, 0);
    assert_eq!(r.core_proof_size, 0);
    assert_eq!(r.compress_prove_duration, 0);
    assert_eq!(r.compress_verify_duration, 0);
    assert_eq!(r.compress_proof_size, 0);
    assert_eq!(r.core_khz, 0);
    assert_eq!(r.overall_khz, 0);
    assert_eq!(r.wrap_prove_duration, 0);
    assert_eq!(r.groth16_prove_duration, 0);
    assert_eq!(r.shrink_prove_duration, 0);
}

#[test]
fn what_was_measured_is_reported_as_it_is() {
    let measured = Measurements {
        shard_size: Some(21),
        shards: Some(3),
        cycles: Some(4_000_000),
        execution_duration: Some(11),
        prove_duration: Some(8_000_000_000),
        core_prove_duration: Some(4_000_000_000),
        core_verify_duration: Some(12),
        core_proof_size: Some(13),
        compress_prove_duration: Some(14),
        compress_verify_duration: Some(15),
        compress_proof_size: Some(16),
        wrap_prove_duration: Some(17),
        groth16_prove_duration: Some(18),
        shrink_prove_duration: Some(19),
    };
    let r = report(&measured);
    assert_eq!(r.shard_size, 21);
    assert_eq!(r.shards, 3);
    assert_eq!(r.cycles, 4_000_000);
    assert_eq!(r.execution_duration, 11);
    assert_eq!(r.prove_duration, 8_000_000_000);
    assert_eq!(r.core_prove_duration, 4_000_000_000);
    assert_eq!(r.core_verify_duration, 12);
    assert_eq!(r.core_proof_size, 13);
    assert_eq!(r.compress_prove_duration, 14);
    assert_eq!(r.compress_verify_duration, 15);
    assert_eq!(r.compress_proof_size, 16);
    assert_eq!(r.wrap_prove_duration, 17);
    assert_eq!(r.groth16_prove_duration, 18);
    assert_eq!(r.shrink_prove_duration, 19);
    assert_eq!(r.speed, 500_000);
    assert_eq!(r.overall_khz, 500);
    assert_eq!(r.core_khz, 1000);
}

#[test]
fn a_million_cycles_in_two_seconds_are_five_hundred_khz() {
    let mut measured = Measurements::none();
    measured.cycles = Some(1_000_000);
    measured.prove_duration = Some(2_000_000_000);
    let r = report(&measured);
    assert_eq!(r.overall_khz, 500);
    assert_eq!(r.speed, 500_000);
    assert_eq!(r.core_khz, 0);
    let exact = 1_000_000f64 / 2.0 / 1_000.0;
    assert_eq!(r.overall_khz as f64, exact);
}

#[test]
fn rates_are_rounded_down() {
    let mut measured = Measurements::none();
    measured.cycles = Some(1_000);
    measured.prove_duration = Some(3_000_000_000);
    let r = report(&measured);
    assert_eq!(r.speed, 333);
    assert_eq!(r.overall_khz, 0);
    measured.cycles = Some(2_999_999);
    measured.prove_duration = Some(1_000_000_000);
    let r = report(&measured);
    assert_eq!(r.speed, 2_999_999);
    assert_eq!(r.overall_khz, 2_999);
}

#[test]
fn rates_hold_the_largest_inputs() {
    let mut measured = Measurements::none();
    measured.cycles = Some(u64::MAX);
    measured.prove_duration = Some(1);
    measured.core_prove_duration = Some(u128::MAX);
    let r = report(&measured);
    assert_eq!(r.speed, u64::MAX as u128 * 1_000_000_000);
    assert_eq!(r.overall_khz, u64::MAX as u128 * 1_000_000);
    assert_eq!(r.core_khz, 0);
}

#[test]
fn no_time_means_no_rate() {
    let mut measured = Measurements::none();
    measured.cycles = Some(5_000_000);
    let r = report(&measured);
    assert_eq!(r.speed, 0);
    assert_eq!(r.overall_khz, 0);
    assert_eq!(r.core_khz, 0);
    measured.prove_duration = Some(0);
    measured.core_prove_duration = Some(0);
    let r = report(&measured);
    assert_eq!(r.speed, 0);
    assert_eq!(r.overall_khz, 0);
    assert_eq!(r.core_khz, 0);
}

#[test]
fn time_operation_hands_back_the_result() {
    let (value, duration) = time_operation(|| 6 * 7);
    assert_eq!(value, 42);
    assert!(duration < Duration::from_secs(5));
    let text = String::from("moved in");
    let (length, _) = time_operation(move || text.len());
    assert_eq!(length, 8);
}

#[test]
fn time_operation_measures_the_operation() {
    let pause = Duration::from_millis(30);
    let ((), duration) = time_operation(|| {
        let start = Instant::now();
        while start.elapsed() < pause {}
    });
    assert!(duration >= pause);
}
