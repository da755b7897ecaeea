//! What the harness asks of the RISC Zero crates: pure computations on
//! bytes, whose results are taken on trust and go by name.

use vstd::prelude::*;

verus! {

/// The blob that `risc0_binfmt::ProgramBinary::new(user, kernel).encode()`
/// yields: a framed container that holds both programs.
pub uninterp spec fn program_binary_blob(user: Seq<u8>, kernel: Seq<u8>) -> Seq<u8>;

/// The image id that `risc0_zkvm::compute_image_id` derives from a combined
/// binary, as the bytes of the digest; `None` where the blob is rejected.
pub uninterp spec fn image_id_of(blob: Seq<u8>) -> Option<Seq<u8>>;

/// Calls `ProgramBinary::new(user, kernel).encode()` of `risc0_binfmt`.
/// Trusted: the result depends on the two arguments alone. The call stores
/// both slices under a fixed header and cannot fail.
#[verifier::external_body]
pub(crate) fn encode_program_binary(user: &[u8], kernel: &[u8]) -> (blob: Vec<u8>)
    ensures
        blob@ == program_binary_blob(user@, kernel@),
{
    risc0_binfmt::ProgramBinary::new(user, kernel).encode()
}

/// Calls `risc0_zkvm::compute_image_id` and hands the digest out as bytes.
/// Trusted: the outcome depends on the blob alone. Blobs of 4 GiB and more
/// are left out, where the loader's 32-bit offset arithmetic could overflow.
/// The call builds the memory image that the two ELFs declare, so its time
/// and memory grow with the sizes that they declare.
#[verifier::external_body]
pub(crate) fn compute_image_id(blob: &[u8]) -> (id: Option<Vec<u8>>)
    requires
        blob@.len() <= u32::MAX,
    ensures
        id is Some == image_id_of(blob@) is Some,
        id matches Some(bytes) ==> image_id_of(blob@) == Some(bytes@),
{
    match risc0_zkvm::compute_image_id(blob) {
        Ok(digest) => Some(digest.as_bytes().to_vec()),
        Err(_) => None,
    }
}

} // verus!
