//! Where the artifacts of a run lie, and how long an operation takes.

use std::time::{Duration, Instant};
use vstd::prelude::*;
use vstd::string::StringExecFns;
use crate::args::{EvalArgs, EvalArgsView};
use crate::error::{EvalError, EvalErrorView};
use crate::text::{decimal, decimal_digits};
use crate::types::{ProgramId, ProverId};

pub mod risc0v2;

verus! {

/// `std::time::Instant`: a reading of the monotonic clock, opaque here.
#[verifier::external_type_specification]
#[verifier::external_body]
pub struct ExInstant(Instant);

/// `Instant::now` of std reads the clock: nothing is known of what it gives.
pub assume_specification[ Instant::now ]() -> Instant;

/// `Instant::elapsed` of std reads the clock again: nothing is known of the
/// duration that it gives.
pub assume_specification[ Instant::elapsed ](start: &Instant) -> Duration;

/// The directory of the selected program under `benchmarks/`: the
/// program's name, and for the two programs that are built once per
/// backend the name of the backend's toolchain behind a hyphen. The Bento
/// service proves what was built for RISC Zero.
pub open spec fn program_dir_of(program: ProgramId, prover: ProverId) -> Seq<char> {
    if program == ProgramId::Tendermint || program == ProgramId::Reth {
        program.name() + "-"@ + (if prover == ProverId::Bento {
            "risc0"@
        } else {
            prover.name()
        })
    } else {
        program.name()
    }
}

/// The target triple that a backend's guests are compiled for; `None` for
/// a backend without one.
pub open spec fn target_of(prover: ProverId) -> Option<Seq<char>> {
    match prover {
        ProverId::SP1 => Some("riscv32im-succinct-zkvm-elf"@),
        ProverId::Risc0 | ProverId::Bento => Some("riscv32im-risc0-zkvm-elf"@),
        ProverId::Nexus => Some("riscv32i-unknown-none-elf"@),
        ProverId::Zisk => Some("riscv64ima-polygon-ziskos-elf"@),
        ProverId::Lita => None,
    }
}

/// The path of the compiled guest, from the working directory.
pub open spec fn elf_path_of(program: ProgramId, prover: ProverId) -> Option<Seq<char>> {
    match target_of(prover) {
        Some(target) => Some(
            "benchmarks/"@ + program_dir_of(program, prover) + "/target/"@ + target + "/release/"@
                + program_dir_of(program, prover),
        ),
        None => None,
    }
}

/// Whether `name` is a file name without an extension: it holds neither a
/// dot nor a slash.
pub open spec fn is_plain_name(name: Seq<char>) -> bool {
    name.len() > 0 && forall|i: int| 0 <= i < name.len() ==> name[i] != '.' && name[i] != '/'
}

/// Whether the file name of `path` is `name`: the path ends in a slash and
/// `name`, and `name` holds no slash.
pub open spec fn names_file(path: Seq<char>, name: Seq<char>) -> bool {
    &&& path.len() > name.len()
    &&& path.subrange(path.len() - name.len(), path.len() as int) == name
    &&& path[path.len() - name.len() - 1] == '/'
    &&& forall|i: int| 0 <= i < name.len() ==> name[i] != '/'
}

proof fn lemma_program_dirs_are_plain(program: ProgramId, prover: ProverId)
    requires
        prover != ProverId::Lita,
    ensures
        is_plain_name(program_dir_of(program, prover)),
{
    reveal_strlit("loop");
    reveal_strlit("fibonacci");
    reveal_strlit("tendermint");
    reveal_strlit("reth");
    reveal_strlit("-");
    reveal_strlit("risc0");
    reveal_strlit("sp1");
    reveal_strlit("nexus");
    reveal_strlit("zisk");
    let name = program.name();
    assert(is_plain_name(name));
    if program == ProgramId::Tendermint || program == ProgramId::Reth {
        let toolchain = if prover == ProverId::Bento {
            "risc0"@
        } else {
            prover.name()
        };
        assert(is_plain_name(toolchain));
        let dir = name + "-"@ + toolchain;
        assert forall|i: int| 0 <= i < dir.len() implies dir[i] != '.' && dir[i] != '/' by {
            if i < name.len() {
                assert(dir[i] == name[i]);
            } else if i == name.len() {
                assert(dir[i] == "-"@[0]);
            } else {
                assert(dir[i] == toolchain[i - name.len() - 1]);
            }
        }
    }
}

/// The file name of every guest is the name of its directory, and has no
/// extension: to give the path the extension `bin` is to append it.
pub proof fn lemma_guests_have_no_extension(program: ProgramId, prover: ProverId)
    requires
        elf_path_of(program, prover) is Some,
    ensures
        names_file(elf_path_of(program, prover).unwrap(), program_dir_of(program, prover)),
        is_plain_name(program_dir_of(program, prover)),
{
    lemma_program_dirs_are_plain(program, prover);
    reveal_strlit("/release/");
    let dir = program_dir_of(program, prover);
    let head = "benchmarks/"@ + dir + "/target/"@ + target_of(prover).unwrap() + "/release/"@;
    let path = elf_path_of(program, prover).unwrap();
    assert(path == head + dir);
    assert(head[head.len() - 1] == "/release/"@[8]);
    assert(path.subrange(path.len() - dir.len(), path.len() as int) =~= dir);
    assert(path[path.len() - dir.len() - 1] == head[head.len() - 1]);
}

/// The path of the fixture for input number `n` in the directory `kind`
/// under `eval/`, from the working directory.
pub open spec fn fixture_path_of(kind: Seq<char>, n: nat) -> Seq<char> {
    "eval/"@ + kind + "/"@ + decimal_digits(n) + ".bin"@
}

fn program_dir(program: ProgramId, prover: ProverId) -> (dir: String)
    ensures
        dir@ == program_dir_of(program, prover),
{
    let name: String = program.to_string();
    if program == ProgramId::Tendermint || program == ProgramId::Reth {
        let name = name.concat("-");
        if prover == ProverId::Bento {
            name.concat("risc0")
        } else {
            let toolchain: String = prover.to_string();
            name.concat(toolchain.as_str())
        }
    } else {
        name
    }
}

/// The path of the compiled guest that `args` selects, from the working
/// directory: `benchmarks/<dir>/target/<triple>/release/<dir>`. Fails with
/// [`EvalError::UnsupportedProver`] exactly for a backend whose guests have
/// no target triple.
pub fn get_elf(args: &EvalArgs) -> (path: Result<String, EvalError>)
    ensures
        match path {
            Ok(p) => elf_path_of(args.program, args.prover) == Some(p@),
            Err(e) => elf_path_of(args.program, args.prover) is None && e@
                == EvalErrorView::UnsupportedProver,
        },
{
    let target: &str = match args.prover {
        ProverId::SP1 => "riscv32im-succinct-zkvm-elf",
        ProverId::Risc0 | ProverId::Bento => "riscv32im-risc0-zkvm-elf",
        ProverId::Nexus => "riscv32i-unknown-none-elf",
        ProverId::Zisk => "riscv64ima-polygon-ziskos-elf",
        ProverId::Lita => { return Err(EvalError::UnsupportedProver); },
    };
    let dir: String = program_dir(args.program, args.prover);
    let path = String::from_str("benchmarks/").concat(dir.as_str()).concat("/target/").concat(
        target,
    ).concat("/release/").concat(dir.as_str());
    Ok(path)
}

/// The path of the fixture for input number `n` in the directory `kind`
/// under `eval/`.
pub fn fixture_path(kind: &str, n: u64) -> (path: String)
    ensures
        path@ == fixture_path_of(kind@, n as nat),
{
    let digits: String = decimal(n);
    String::from_str("eval/").concat(kind).concat("/").concat(digits.as_str()).concat(".bin")
}

/// The path of the block fixture that feeds the block-execution program,
/// from the working directory: `eval/blocks/<number>.bin`. Fails with
/// [`EvalError::MissingBlockNumber`] exactly where `args` holds no block
/// number.
pub fn get_reth_input(args: &EvalArgs) -> (path: Result<String, EvalError>)
    ensures
        match path {
            Ok(p) => args.block_number matches Some(n) && p@ == fixture_path_of(
                "blocks"@,
                n as nat,
            ),
            Err(e) => args.block_number is None && e@ == EvalErrorView::MissingBlockNumber,
        },
{
    match args.block_number {
        Some(n) => Ok(fixture_path("blocks", n)),
        None => Err(EvalError::MissingBlockNumber),
    }
}

/// Runs `operation` and hands back what it returned together with the
/// wall-clock time that it took.
pub fn time_operation<T, F: FnOnce() -> T>(operation: F) -> (timed: (T, Duration))
    requires
        operation.requires(()),
    ensures
        operation.ensures((), timed.0),
{
    let start = Instant::now();
    let result = operation();
    let duration = start.elapsed();
    (result, duration)
}

} // verus!
