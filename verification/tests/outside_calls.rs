use risc0_zkvm::Digest;
use zkvm_eval::bento::{BentoEvaluator, Phase};
use zkvm_eval::job::PollPolicy;
use zkvm_eval::protocol::{Action, Event, ReceiptShape};
use zkvm_eval::text::hex_lower;
use zkvm_eval::utils::risc0v2::{generate_risc0_v2_elf, CacheEvent, CacheStep};
use zkvm_eval::{EvalArgs, EvalError, ProgramId, ProverId};

fn tiny_elf(entry: u32, vaddr: u32, word: u32) -> Vec<u8> {
    let mut elf: Vec<u8> = vec![0x7f, b'E', b'L', b'F', 1, 1, 1, 0, 0, 0, 0, 0, 0, 0, 0, 0];
    elf.extend_from_slice(&2u16.to_le_bytes());
    elf.extend_from_slice(&243u16.to_le_bytes());
    elf.extend_from_slice(&1u32.to_le_bytes());
    elf.extend_from_slice(&entry.to_le_bytes());
    elf.extend_from_slice(&52u32.to_le_bytes());
    elf.extend_from_slice(&0u32.to_le_bytes());
    elf.extend_from_slice(&0u32.to_le_bytes());
    elf.extend_from_slice(&52u16.to_le_bytes());
    elf.extend_from_slice(&32u16.to_le_bytes());
    elf.extend_from_slice(&1u16.to_le_bytes());
    elf.extend_from_slice(&40u16.to_le_bytes());
    elf.extend_from_slice(&0u16.to_le_bytes());
    elf.extend_from_slice(&0u16.to_le_bytes());
    assert_eq!(elf.len(), 52);
    elf.extend_from_slice(&1u32.to_le_bytes());
    elf.extend_from_slice(&84u32.to_le_bytes());
    elf.extend_from_slice(&vaddr.to_le_bytes());
    elf.extend_from_slice(&vaddr.to_le_bytes());
    elf.extend_from_slice(&4u32.to_le_bytes());
    elf.extend_from_slice(&4u32.to_le_bytes());
    elf.extend_from_slice(&5u32.to_le_bytes());
    elf.extend_from_slice(&4u32.to_le_bytes());
    assert_eq!(elf.len(), 84);
    elf.extend_from_slice(&word.to_le_bytes());
    elf
}

fn user_elf() -> Vec<u8> {
    tiny_elf(0x0020_0000, 0x0020_0000, 0x0000_0073)
}

fn kernel_elf() -> Vec<u8> {
    tiny_elf(0xc000_0000, 0xc000_0000, 0x0000_0013)
}

fn loop_args() -> EvalArgs {
    EvalArgs {
        program: ProgramId::Loop,
        prover: ProverId::Bento,
        fibonacci_input: None,
        block_number: None,
        block_name: None,
        shard_size: 21,
        bento_url: Some("http://localhost:8081".to_string()),
    }
}

/// A run that was brought to the point where it waits for the core receipt.
fn run_at_core_receipt(blob: Vec<u8>) -> BentoEvaluator {
    let mut run = BentoEvaluator::new(&loop_args(), kernel_elf(), PollPolicy::default()).unwrap();
    run.eval(Event::Started);
    run.eval(Event::Probed { exists: true });
    run.eval(Event::Loaded { contents: blob });
    run.eval(Event::Executed { cycles: 1000, duration: 5 });
    run.eval(Event::Connected);
    run.eval(Event::ImageUploaded);
    run.eval(Event::InputUploaded { input_id: "input-1".to_string() });
    run.eval(Event::SessionCreated { job_id: "job-1".to_string() });
    let reply = zkvm_eval::job::StatusReply {
        status: "SUCCEEDED".to_string(),
        error_msg: None,
        output: None,
    };
    let action = run.eval(Event::Status { reply, elapsed: 7 });
    assert!(matches!(action, Action::DownloadReceipt { .. }));
    assert_eq!(run.phase(), Phase::DownloadingReceipt);
    run
}

#[test]
fn combined_binary_is_the_container_of_the_outside_crate() {
    let user = user_elf();
    let kernel = kernel_elf();
    let event = CacheEvent::Loaded { user_elf: user.clone() };
    let step = generate_risc0_v2_elf(&loop_args(), &kernel, event).unwrap();
    let expected = risc0_binfmt::ProgramBinary::new(&user, &kernel).encode();
    match step {
        CacheStep::Store { path, contents } => {
            assert_eq!(path, "benchmarks/loop/target/riscv32im-risc0-zkvm-elf/release/loop.bin");
            assert_eq!(contents, expected);
            assert_ne!(contents, user);
            assert_eq!(&contents[..4], b"R0BF");
            assert!(contents.ends_with(&kernel));
            assert!(contents.len() > user.len() + kernel.len());
            let decoded = risc0_binfmt::ProgramBinary::decode(&contents).unwrap();
            assert_eq!(decoded.user_elf, &user[..]);
            assert_eq!(decoded.kernel_elf, &kernel[..]);
        }
        other => panic!("unexpected step {:?}", other),
    }
}

#[test]
fn generation_step_for_args_names_the_guest_of_the_backend() {
    let step = generate_risc0_v2_elf(&loop_args(), &kernel_elf(), CacheEvent::Begin).unwrap();
    match step {
        CacheStep::Probe { path } => assert_eq!(
            path,
            "benchmarks/loop/target/riscv32im-risc0-zkvm-elf/release/loop.bin"
        ),
        other => panic!("unexpected step {:?}", other),
    }
    let mut args = loop_args();
    args.prover = ProverId::Lita;
    let refused = generate_risc0_v2_elf(&args, &kernel_elf(), CacheEvent::Begin);
    assert!(matches!(refused, Err(EvalError::UnsupportedProver)));
}

#[test]
fn image_id_is_the_one_of_the_outside_crate_in_hex() {
    let blob = risc0_binfmt::ProgramBinary::new(&user_elf(), &kernel_elf()).encode();
    let expected = risc0_zkvm::compute_image_id(&blob).unwrap();
    let mut run = BentoEvaluator::new(&loop_args(), kernel_elf(), PollPolicy::default()).unwrap();
    run.eval(Event::Started);
    run.eval(Event::Probed { exists: true });
    let action = run.eval(Event::Loaded { contents: blob.clone() });
    match action {
        Action::Execute { elf, input, segment_limit_po2 } => {
            assert_eq!(elf, blob);
            assert!(input.is_empty());
            assert_eq!(segment_limit_po2, 21);
        }
        other => panic!("unexpected action {:?}", other),
    }
    run.eval(Event::Executed { cycles: 10, duration: 20 });
    let action = run.eval(Event::Connected);
    match action {
        Action::UploadImage { image_id, elf } => {
            assert_eq!(image_id, expected.to_string());
            assert_eq!(image_id.len(), 64);
            assert_eq!(elf, blob);
        }
        other => panic!("unexpected action {:?}", other),
    }
}

#[test]
fn a_blob_that_is_no_program_binary_is_an_invalid_image() {
    let mut run = BentoEvaluator::new(&loop_args(), kernel_elf(), PollPolicy::default()).unwrap();
    run.eval(Event::Started);
    run.eval(Event::Probed { exists: true });
    let action = run.eval(Event::Loaded { contents: user_elf() });
    assert!(matches!(action, Action::Fail(EvalError::InvalidImage)));
    assert_eq!(run.phase(), Phase::Failed);
}

#[test]
fn hex_of_a_digest_is_its_display() {
    let mut bytes = [0u8; 32];
    for (i, b) in bytes.iter_mut().enumerate() {
        *b = (i as u8).wrapping_mul(37).wrapping_add(11);
    }
    let digest = Digest::from(bytes);
    assert_eq!(hex_lower(&bytes), digest.to_string());
    assert_eq!(hex_lower(digest.as_bytes()), digest.to_string());
}

#[test]
fn the_receipt_is_handed_on_for_verification_with_the_image_digest() {
    let blob = risc0_binfmt::ProgramBinary::new(&user_elf(), &kernel_elf()).encode();
    let image_id = risc0_zkvm::compute_image_id(&blob).unwrap();
    let mut run = run_at_core_receipt(blob);
    let bytes = vec![5u8, 4, 3, 2, 1];
    let shape = ReceiptShape::Succinct { seal_words: 16 };
    let action = run.eval(Event::Downloaded { contents: bytes.clone(), shape });
    match action {
        Action::Verify { receipt, image_digest: id } => {
            assert_eq!(receipt, bytes);
            assert_eq!(id, image_id.as_bytes());
            assert_eq!(Digest::try_from(&id[..]).unwrap(), image_id);
        }
        other => panic!("unexpected action {:?}", other),
    }
    assert_eq!(run.phase(), Phase::VerifyingReceipt);
}

#[test]
fn mangled_binaries_are_refused_or_identified() {
    let blob = risc0_binfmt::ProgramBinary::new(&user_elf(), &kernel_elf()).encode();
    let mut refused = 0;
    let mut identified = 0;
    // The two high bytes of a segment's size in memory are left alone: an image of
    // gigabytes is a valid one, and takes its time.
    let user_memsz = 32 + 52 + 20;
    let kernel_memsz = 32 + 88 + 52 + 20;
    for at in 0..blob.len() {
        if [user_memsz + 2, user_memsz + 3, kernel_memsz + 2, kernel_memsz + 3].contains(&at) {
            continue;
        }
        for mask in [0x01u8, 0x80, 0xff] {
            let mut mangled = blob.clone();
            mangled[at] ^= mask;
            let mut run =
                BentoEvaluator::new(&loop_args(), kernel_elf(), PollPolicy::default()).unwrap();
            run.eval(Event::Started);
            run.eval(Event::Probed { exists: true });
            match run.eval(Event::Loaded { contents: mangled }) {
                Action::Execute { .. } => identified += 1,
                Action::Fail(EvalError::InvalidImage) => refused += 1,
                other => panic!("unexpected action {:?}", other),
            }
        }
    }
    assert!(refused > 0);
    assert!(identified > 0);
    for len in 0..blob.len() {
        let mut run =
            BentoEvaluator::new(&loop_args(), kernel_elf(), PollPolicy::default()).unwrap();
        run.eval(Event::Started);
        run.eval(Event::Probed { exists: true });
        let action = run.eval(Event::Loaded { contents: blob[..len].to_vec() });
        assert!(matches!(action, Action::Execute { .. } | Action::Fail(EvalError::InvalidImage)));
    }
}
