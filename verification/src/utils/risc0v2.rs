//! The combined kernel-and-user binary that RISC Zero's second-generation
//! VM loads, made once and kept next to the guest's ELF.

use vstd::prelude::*;
use vstd::string::StringExecFns;
use crate::args::{EvalArgs, EvalArgsView};
use crate::error::{EvalError, EvalErrorView};
use crate::risc0::{encode_program_binary, program_binary_blob};
use crate::utils::{elf_path_of, get_elf};

verus! {

/// What the caller found out for the generation step.
#[derive(Debug)]
pub enum CacheEvent {
    /// Nothing yet: the step begins.
    Begin,
    /// Whether the combined binary is on disk.
    Probed { exists: bool },
    /// The bytes of the guest's ELF.
    Loaded { user_elf: Vec<u8> },
    /// The combined binary was written.
    Stored,
}

/// What the caller does next for the generation step.
#[derive(Debug)]
pub enum CacheStep {
    /// Find out whether the file at `path` exists.
    Probe { path: String },
    /// Read the guest's ELF at `path`.
    Load { path: String },
    /// Write `contents` to `path`.
    Store { path: String, contents: Vec<u8> },
    /// The combined binary lies at `path`.
    Ready { path: String },
}

/// The mathematical value of a [`CacheEvent`].
pub enum CacheEventView {
    Begin,
    Probed { exists: bool },
    Loaded { user_elf: Seq<u8> },
    Stored,
}

/// The mathematical value of a [`CacheStep`].
pub enum CacheStepView {
    Probe { path: Seq<char> },
    Load { path: Seq<char> },
    Store { path: Seq<char>, contents: Seq<u8> },
    Ready { path: Seq<char> },
}

impl View for CacheEvent {
    type V = CacheEventView;

    open spec fn view(&self) -> CacheEventView {
        match self {
            CacheEvent::Begin => CacheEventView::Begin,
            CacheEvent::Probed { exists } => CacheEventView::Probed { exists: *exists },
            CacheEvent::Loaded { user_elf } => CacheEventView::Loaded { user_elf: user_elf@ },
            CacheEvent::Stored => CacheEventView::Stored,
        }
    }
}

impl View for CacheStep {
    type V = CacheStepView;

    open spec fn view(&self) -> CacheStepView {
        match self {
            CacheStep::Probe { path } => CacheStepView::Probe { path: path@ },
            CacheStep::Load { path } => CacheStepView::Load { path: path@ },
            CacheStep::Store { path, contents } => CacheStepView::Store {
                path: path@,
                contents: contents@,
            },
            CacheStep::Ready { path } => CacheStepView::Ready { path: path@ },
        }
    }
}

/// Where the combined binary of the guest at `elf_path` is kept: next to
/// the guest, under its name with the extension `bin`. A guest's file name
/// has no extension of its own (`lemma_guests_have_no_extension`), so the
/// extension is appended; a path whose file name has one is no guest's.
pub open spec fn combined_path_of(elf_path: Seq<char>) -> Seq<char> {
    elf_path + ".bin"@
}

/// The generation step for the guest at `elf_path`: the combined binary is
/// looked for first, and only where it is missing the guest's ELF is read,
/// combined with the kernel and written.
pub open spec fn generation_step_at(elf_path: Seq<char>, kernel: Seq<u8>, event: CacheEventView)
    -> CacheStepView {
    match event {
        CacheEventView::Begin => CacheStepView::Probe { path: combined_path_of(elf_path) },
        CacheEventView::Probed { exists } => if exists {
            CacheStepView::Ready { path: combined_path_of(elf_path) }
        } else {
            CacheStepView::Load { path: elf_path }
        },
        CacheEventView::Loaded { user_elf } => CacheStepView::Store {
            path: combined_path_of(elf_path),
            contents: program_binary_blob(user_elf, kernel),
        },
        CacheEventView::Stored => CacheStepView::Ready { path: combined_path_of(elf_path) },
    }
}

/// How one invocation of the generation step ended.
pub struct Generation {
    /// The files afterwards, contents by path.
    pub disk: Map<Seq<char>, Seq<u8>>,
    /// Where the combined binary lies.
    pub path: Seq<char>,
    /// How many files were read.
    pub reads: nat,
    /// How many files were written.
    pub writes: nat,
}

/// One invocation of the generation step against the files in `disk`
/// (contents by path), played to its end. `None` where the combined binary
/// is missing and the guest's ELF is missing too: the read fails, nothing
/// is written, and the run ends there.
pub open spec fn generation_run(
    disk: Map<Seq<char>, Seq<u8>>,
    elf_path: Seq<char>,
    kernel: Seq<u8>,
) -> Option<Generation> {
    let combined = generation_step_at(elf_path, kernel, CacheEventView::Begin)->Probe_path;
    match generation_step_at(
        elf_path,
        kernel,
        CacheEventView::Probed { exists: disk.contains_key(combined) },
    ) {
        CacheStepView::Ready { path } => Some(Generation { disk, path, reads: 0, writes: 0 }),
        CacheStepView::Load { path } => if !disk.contains_key(path) {
            None
        } else {
            match generation_step_at(
                elf_path,
                kernel,
                CacheEventView::Loaded { user_elf: disk[path] },
            ) {
                CacheStepView::Store { path: target, contents } => Some(
                    Generation {
                        disk: disk.insert(target, contents),
                        path: generation_step_at(elf_path, kernel, CacheEventView::Stored)->Ready_path,
                        reads: 1,
                        writes: 1,
                    },
                ),
                _ => None,
            }
        },
        _ => None,
    }
}

/// Generating twice from the same guest is generating once. An invocation
/// fails only where neither the combined binary nor the guest's ELF is on
/// the disk. Otherwise it names the combined binary, which is on the disk
/// afterwards, and has read and written at most one file each: none where
/// the binary was there, the guest's ELF and the binary where it was not.
/// A second invocation then names the same binary, reads nothing, writes
/// nothing and leaves the disk as it was.
pub proof fn lemma_generation_is_idempotent(
    disk: Map<Seq<char>, Seq<u8>>,
    elf_path: Seq<char>,
    kernel: Seq<u8>,
)
    ensures
        generation_run(disk, elf_path, kernel) is None <==> !disk.contains_key(
            combined_path_of(elf_path),
        ) && !disk.contains_key(elf_path),
        generation_run(disk, elf_path, kernel) matches Some(first) ==> {
            &&& first.path == combined_path_of(elf_path)
            &&& first.disk.contains_key(first.path)
            &&& first.reads <= 1 && first.writes <= 1
            &&& disk.contains_key(first.path) ==> first.disk == disk && first.reads == 0
                && first.writes == 0
            &&& !disk.contains_key(first.path) ==> first.disk == disk.insert(
                first.path,
                program_binary_blob(disk[elf_path], kernel),
            ) && first.reads == 1 && first.writes == 1
            &&& generation_run(first.disk, elf_path, kernel) == Some(
                Generation { disk: first.disk, path: first.path, reads: 0, writes: 0 },
            )
        },
{
}

/// The generation step for the guest that `args` selects.
pub open spec fn generation_step(args: EvalArgsView, kernel: Seq<u8>, event: CacheEventView)
    -> Result<CacheStepView, EvalErrorView> {
    match elf_path_of(args.program, args.prover) {
        Some(elf_path) => Ok(generation_step_at(elf_path, kernel, event)),
        None => Err(EvalErrorView::UnsupportedProver),
    }
}

/// Decides the next move of the generation step for the guest at
/// `elf_path`, given what the caller found out last. The combined binary
/// is the guest's ELF framed together with `kernel`.
pub(crate) fn combined_binary_step(elf_path: &str, kernel: &[u8], event: CacheEvent) -> (step: CacheStep)
    ensures
        step@ == generation_step_at(elf_path@, kernel@, event@),
{
    match event {
        CacheEvent::Begin => CacheStep::Probe { path: String::from_str(elf_path).concat(".bin") },
        CacheEvent::Probed { exists } => {
            if exists {
                CacheStep::Ready { path: String::from_str(elf_path).concat(".bin") }
            } else {
                CacheStep::Load { path: String::from_str(elf_path) }
            }
        },
        CacheEvent::Loaded { user_elf } => {
            let contents: Vec<u8> = encode_program_binary(user_elf.as_slice(), kernel);
            CacheStep::Store { path: String::from_str(elf_path).concat(".bin"), contents }
        },
        CacheEvent::Stored => CacheStep::Ready { path: String::from_str(elf_path).concat(".bin") },
    }
}

/// Decides the next move of the generation step for the guest that `args`
/// selects, given what the caller found out last. Fails with
/// [`EvalError::UnsupportedProver`] exactly where the backend has no
/// compiled guest.
pub fn generate_risc0_v2_elf(args: &EvalArgs, kernel: &[u8], event: CacheEvent) -> (step: Result<
    CacheStep,
    EvalError,
>)
    ensures
        match step {
            Ok(s) => generation_step(args@, kernel@, event@) == Ok::<CacheStepView, EvalErrorView>(
                s@,
            ),
            Err(e) => generation_step(args@, kernel@, event@) == Err::<
                CacheStepView,
                EvalErrorView,
            >(e@),
        },
{
    match get_elf(args) {
        Ok(elf_path) => Ok(combined_binary_step(elf_path.as_str(), kernel, event)),
        Err(e) => Err(e),
    }
}

} // verus!
