use vstd::prelude::*;

use crate::bytes::append_bytes;
use crate::bytes::bytes_equal;
use crate::bytes::clone_bytes;
use crate::decimal::decimal_of;
use crate::decimal::format_u64;
use crate::environment::CandidateEnv;
use crate::environment::ExecutionError;
use crate::generator::generate_input;
use crate::hexcodec::hex_encode;
use crate::hexcodec::hex_encoding_of;
use crate::reference::keccak256_of;
use crate::reference::reference_hash;

verus! {

/// Everything needed to reproduce one disagreement: the iteration index
/// within its worker, the exact input bytes, and both digests.
#[derive(Debug)]
pub struct MismatchReport {
    pub iteration: u64,
    pub input: Vec<u8>,
    pub reference_digest: Vec<u8>,
    pub candidate_digest: Vec<u8>,
}

/// ASCII bytes of "Hash mismatch at iteration ", the words that open the
/// failure surface's message.
pub open spec fn mismatch_prefix() -> Seq<u8> {
    seq![
        0x48u8, 0x61, 0x73, 0x68, 0x20, 0x6d, 0x69, 0x73, 0x6d, 0x61, 0x74, 0x63, 0x68, 0x20,
        0x61, 0x74, 0x20, 0x69, 0x74, 0x65, 0x72, 0x61, 0x74, 0x69, 0x6f, 0x6e, 0x20,
    ]
}

/// ASCII bytes of " - input: ", the words between the iteration index and
/// the hex-encoded input.
pub open spec fn mismatch_infix() -> Seq<u8> {
    seq![0x20u8, 0x2d, 0x20, 0x69, 0x6e, 0x70, 0x75, 0x74, 0x3a, 0x20]
}

/// The human-readable failure message: the opening words, the iteration
/// index in decimal, the joining words, and the input bytes as hex — enough
/// to reproduce the mismatch deterministically.
pub open spec fn mismatch_message_of(iteration: u64, input: Seq<u8>) -> Seq<u8> {
    mismatch_prefix() + decimal_of(iteration) + mismatch_infix() + hex_encoding_of(input)
}

fn mismatch_prefix_bytes() -> (r: Vec<u8>)
    ensures
        r@ == mismatch_prefix(),
{
    let mut s: Vec<u8> = Vec::new();
    s.push(0x48);
    s.push(0x61);
    s.push(0x73);
    s.push(0x68);
    s.push(0x20);
    s.push(0x6d);
    s.push(0x69);
    s.push(0x73);
    s.push(0x6d);
    s.push(0x61);
    s.push(0x74);
    s.push(0x63);
    s.push(0x68);
    s.push(0x20);
    s.push(0x61);
    s.push(0x74);
    s.push(0x20);
    s.push(0x69);
    s.push(0x74);
    s.push(0x65);
    s.push(0x72);
    s.push(0x61);
    s.push(0x74);
    s.push(0x69);
    s.push(0x6f);
    s.push(0x6e);
    s.push(0x20);
    proof {
        assert(s@ =~= mismatch_prefix());
    }
    s
}

fn mismatch_infix_bytes() -> (r: Vec<u8>)
    ensures
        r@ == mismatch_infix(),
{
    let mut s: Vec<u8> = Vec::new();
    s.push(0x20);
    s.push(0x2d);
    s.push(0x20);
    s.push(0x69);
    s.push(0x6e);
    s.push(0x70);
    s.push(0x75);
    s.push(0x74);
    s.push(0x3a);
    s.push(0x20);
    proof {
        assert(s@ =~= mismatch_infix());
    }
    s
}

impl MismatchReport {
    /// The input bytes as lower-case hex ASCII: the reproducible encoding
    /// the failure surface shows.
    pub fn input_hex(&self) -> (r: Vec<u8>)
        requires
            self.input@.len() * 2 <= usize::MAX,
        ensures
            r@ == hex_encoding_of(self.input@),
    {
        hex_encode(&self.input)
    }

    /// The full human-readable failure message, as ASCII bytes: it names the
    /// failing iteration and the exact input in hex.
    pub fn message(&self) -> (r: Vec<u8>)
        requires
            self.input@.len() * 2 <= usize::MAX,
        ensures
            r@ == mismatch_message_of(self.iteration, self.input@),
    {
        let mut m = mismatch_prefix_bytes();
        append_bytes(&mut m, &format_u64(self.iteration));
        append_bytes(&mut m, &mismatch_infix_bytes());
        append_bytes(&mut m, &hex_encode(&self.input));
        m
    }
}

/// Why a worker ended before completing its share. Either way the error is
/// fatal to the whole run: nothing is retried or swallowed.
#[derive(Debug)]
pub enum FuzzError {
    /// The candidate's call protocol faulted: a revert, an execution fault,
    /// or an undecodable digest.
    ExecutionFault { iteration: u64, fault: ExecutionError },
    /// The two backends disagreed: the condition the engine exists to
    /// detect.
    DigestMismatch(MismatchReport),
}

/// One fuzz iteration on a given input: the reference backend and the
/// candidate hash it, and the digests are compared. On agreement the shared
/// digest is returned, and it is the reference digest of the input; any
/// disagreement or fault ends the worker.
pub fn run_iteration(env: &mut CandidateEnv, iteration: u64, input: &Vec<u8>) -> (r: Result<
    Vec<u8>,
    FuzzError,
>)
    requires
        old(env).well_formed(),
        old(env).idle(),
        input@.len() + 100 <= usize::MAX,
    ensures
        final(env).well_formed(),
        final(env).idle(),
        r matches Ok(d) ==> d@ == keccak256_of(input@) && d@.len() == 32,
        r matches Err(FuzzError::DigestMismatch(m)) ==> m.iteration == iteration && m.input@
            == input@ && m.reference_digest@ == keccak256_of(input@) && m.candidate_digest@
            != m.reference_digest@ && m.candidate_digest@.len() == 32,
        r matches Err(FuzzError::ExecutionFault { iteration: it, .. }) ==> it == iteration,
{
    let reference_digest = reference_hash(input);
    let candidate_digest = match env.candidate_hash(input) {
        Ok(d) => d,
        Err(fault) => {
            return Err(FuzzError::ExecutionFault { iteration, fault });
        },
    };
    if bytes_equal(&reference_digest, &candidate_digest) {
        Ok(reference_digest)
    } else {
        Err(
            FuzzError::DigestMismatch(
                MismatchReport {
                    iteration,
                    input: clone_bytes(input),
                    reference_digest,
                    candidate_digest,
                },
            ),
        )
    }
}

/// One worker's whole share of the run: draw an input, hash it through both
/// backends, compare, and go on to the next iteration only on agreement.
/// The environment is never reset between iterations; the candidate's own
/// protocol must leave no residual state, and a leak shows up here as a
/// mismatch. Success means every single iteration agreed.
pub fn run_worker(env: &mut CandidateEnv, num_iterations: u64, max_input_bytes: usize) -> (r:
    Result<u64, FuzzError>)
    requires
        old(env).well_formed(),
        old(env).idle(),
        1 <= max_input_bytes,
        max_input_bytes + 100 <= usize::MAX,
    ensures
        final(env).well_formed(),
        final(env).idle(),
        r matches Ok(n) ==> n == num_iterations,
        r matches Err(FuzzError::DigestMismatch(m)) ==> m.iteration < num_iterations && m.input@.len()
            < max_input_bytes && m.reference_digest@ == keccak256_of(m.input@)
            && m.candidate_digest@ != m.reference_digest@,
        r matches Err(FuzzError::ExecutionFault { iteration: it, .. }) ==> it < num_iterations,
{
    let mut i: u64 = 0;
    while i < num_iterations
        invariant
            i <= num_iterations,
            env.well_formed(),
            env.idle(),
            1 <= max_input_bytes,
            max_input_bytes + 100 <= usize::MAX,
        decreases num_iterations - i,
    {
        let input = generate_input(max_input_bytes);
        match run_iteration(env, i, &input) {
            Ok(_) => {},
            Err(e) => {
                return Err(e);
            },
        }
        i += 1;
    }
    Ok(num_iterations)
}

} // verus!
