use vstd::prelude::*;

use revm::context::TxEnv;
use revm::context_interface::result::ExecutionResult;
use revm::context_interface::result::Output;
use revm::database::CacheDB;
use revm::database_interface::EmptyDB;
use revm::handler::MainnetContext;
use revm::primitives::Address;
use revm::primitives::Bytes;
use revm::primitives::B256;
use revm::primitives::TxKind;
use revm::primitives::U256;
use revm::state::AccountInfo;
use revm::state::Bytecode;
use revm::Context;
use revm::ExecuteCommitEvm;
use revm::MainBuilder;
use revm::MainContext;
use revm::MainnetEvm;

use crate::abi::encode_absorb_call;
use crate::abi::encode_squeeze_call;
use crate::bytes::clone_bytes;
use crate::hexcodec::hex_decode;
use crate::hexcodec::hex_decoding_of;
use crate::hexcodec::hex_well_formed;
use crate::hexcodec::HexDecodeError;
use crate::reference::reference_hash;

verus! {

/// Owns the candidate's execution context: a revm mainnet EVM over an
/// in-memory database, with the candidate's code deployed. Opaque to
/// verification; reached only through the trusted calls below.
#[verifier::external_body]
struct EvmHandle {
    evm: MainnetEvm<MainnetContext<CacheDB<EmptyDB>>>,
}

/// What one call against the deployed code came to: the output bytes of a
/// successful execution, or a description of the revert or fault.
enum CallOutcome {
    Success(Vec<u8>),
    Failure(String),
}

/// A fatal fault of the candidate's two-call protocol: a call that did not
/// succeed, or a squeeze output that is no 32-byte digest.
#[derive(Debug)]
pub enum ExecutionError {
    AbsorbFailed { detail: String },
    SqueezeFailed { detail: String },
    MalformedDigest { length: usize },
}

/// Why an environment could not be built from the supplied code blob.
#[derive(Debug)]
pub enum DeployError {
    /// The blob was not a well-formed hex string.
    InvalidHex(HexDecodeError),
    /// The decoded code is of a delegation format the execution environment
    /// refuses to deploy as a contract.
    UnsupportedBytecode,
}

/// Whether the execution environment accepts the decoded code as a plain
/// contract: it refuses only code that opens with the two-byte delegation
/// marker 0xef 0x01.
pub open spec fn deployable(code: Seq<u8>) -> bool {
    !(code.len() >= 2 && code[0] == 0xef && code[1] == 0x01)
}

/// The sponge protocol position of an environment: between iterations it is
/// idle, and between the two calls of one iteration it holds absorbed input.
enum SpongePhase {
    Idle,
    Absorbed,
}

/// One worker's candidate backend: the deployed code at a fixed address and
/// the execution state that persists across every call made through it.
pub struct CandidateEnv {
    inner: EvmHandle,
    address: Vec<u8>,
    phase: SpongePhase,
}

/// Relies on revm: `Bytecode::new_raw_checked` accepts any code that does
/// not open with the 0xef 0x01 delegation marker; `CacheDB::insert_contract`
/// and `insert_account_info` register the account; `Context::mainnet`,
/// `with_db` and `build_mainnet` assemble a deterministic EVM. The nonce
/// check is disabled so that calls chain without ledger bookkeeping; the
/// default zero gas price, zero base fee and maximal gas allowance make the
/// execution cost-unconstrained, so only program logic decides the outcome.
#[verifier::external_body]
fn make_evm(code: Vec<u8>, code_hash: &Vec<u8>, address: &Vec<u8>) -> (r: Option<EvmHandle>)
    requires
        code_hash@.len() == 32,
        address@.len() == 20,
    ensures
        deployable(code@) ==> r is Some,
{
    let bytecode = Bytecode::new_raw_checked(Bytes::from(code)).ok()?;
    let mut db = CacheDB::new(EmptyDB::default());
    let hash = B256::from_slice(code_hash.as_slice());
    let mut info = AccountInfo { balance: U256::ZERO, nonce: 0, code_hash: hash, code: Some(bytecode), ..Default::default() };
    db.insert_contract(&mut info);
    db.insert_account_info(Address::from_slice(address.as_slice()), info);
    let mut ctx = Context::mainnet().with_db(db);
    ctx.cfg.disable_nonce_check = true;
    Some(EvmHandle { evm: ctx.build_mainnet() })
}

/// Relies on revm's `transact_commit`: executes the calldata as a call
/// against the deployed address, commits the state change, and reports
/// success with the output bytes, or the revert, halt or internal error.
/// The outcome depends on the execution state, so nothing is promised of it.
#[verifier::external_body]
fn transact(env: &mut CandidateEnv, calldata: Vec<u8>) -> (r: CallOutcome)
    ensures
        final(env).phase == old(env).phase,
        final(env).address == old(env).address,
{
    let target = Address::from_slice(env.address.as_slice());
    let tx = TxEnv { caller: Address::ZERO, kind: TxKind::Call(target), data: Bytes::from(calldata), ..Default::default() };
    match env.inner.evm.transact_commit(tx) {
        Ok(ExecutionResult::Success { output: Output::Call(bytes), .. }) => CallOutcome::Success(bytes.to_vec()),
        Ok(ExecutionResult::Success { output: Output::Create(bytes, _), .. }) => CallOutcome::Success(bytes.to_vec()),
        Ok(other) => CallOutcome::Failure(format!("{other:?}")),
        Err(err) => CallOutcome::Failure(format!("{err:?}")),
    }
}

impl CandidateEnv {
    /// The deployment address is always the 20 bytes it was built with.
    pub closed spec fn well_formed(self) -> bool {
        self.address@.len() == 20
    }

    /// Idle: ready for the next iteration's absorb call.
    pub closed spec fn idle(self) -> bool {
        self.phase is Idle
    }

    /// Absorbed: one absorb call succeeded and the digest is owed.
    pub closed spec fn absorbed(self) -> bool {
        self.phase is Absorbed
    }

    /// The 20-byte address every call of this environment targets.
    pub closed spec fn deployment_address(self) -> Seq<u8> {
        self.address@
    }

    /// Builds one worker's environment: decodes the hex code blob, hashes it
    /// for the account's code hash, and deploys it at the given address.
    /// Succeeds on every well-formed hex blob whose code the execution
    /// environment accepts.
    pub fn new(bytecode_hex: &Vec<u8>, address: &Vec<u8>) -> (r: Result<CandidateEnv, DeployError>)
        requires
            address@.len() == 20,
        ensures
            r matches Err(DeployError::InvalidHex(e)) ==> !hex_well_formed(bytecode_hex@) && (
            e matches HexDecodeError::OddLength <==> bytecode_hex@.len() % 2 != 0),
            !hex_well_formed(bytecode_hex@) ==> r matches Err(DeployError::InvalidHex(_)),
            r matches Err(DeployError::UnsupportedBytecode) ==> hex_well_formed(bytecode_hex@)
                && !deployable(hex_decoding_of(bytecode_hex@)),
            hex_well_formed(bytecode_hex@) && deployable(hex_decoding_of(bytecode_hex@))
                ==> r is Ok,
            r matches Ok(env) ==> env.well_formed() && env.idle() && env.deployment_address()
                == address@,
    {
        let code = match hex_decode(bytecode_hex) {
            Ok(code) => code,
            Err(e) => {
                return Err(DeployError::InvalidHex(e));
            },
        };
        let code_hash = reference_hash(&code);
        match make_evm(code, &code_hash, address) {
            Some(inner) => Ok(
                CandidateEnv { inner, address: clone_bytes(address), phase: SpongePhase::Idle },
            ),
            None => Err(DeployError::UnsupportedBytecode),
        }
    }

    /// The first call of an iteration: hands the input to the candidate's
    /// absorb entry point. On success the environment owes a digest; on a
    /// failed call it stays idle and the fault is fatal to the run.
    pub fn absorb(&mut self, input: &Vec<u8>) -> (r: Result<(), ExecutionError>)
        requires
            old(self).well_formed(),
            old(self).idle(),
            input@.len() + 100 <= usize::MAX,
        ensures
            final(self).well_formed(),
            r is Ok ==> final(self).absorbed(),
            r is Err ==> final(self).idle(),
            r matches Err(e) ==> e matches ExecutionError::AbsorbFailed { .. },
    {
        let calldata = encode_absorb_call(input);
        match transact(self, calldata) {
            CallOutcome::Success(_) => {
                self.phase = SpongePhase::Absorbed;
                Ok(())
            },
            CallOutcome::Failure(detail) => Err(ExecutionError::AbsorbFailed { detail }),
        }
    }

    /// The second call of an iteration: asks the squeeze entry point for the
    /// digest and decodes it from the output bytes. Whatever the outcome,
    /// the environment is idle again afterwards: the candidate itself is
    /// expected to have reset its sponge, and the engine checks that claim
    /// by never resetting anything on its own.
    pub fn squeeze(&mut self) -> (r: Result<Vec<u8>, ExecutionError>)
        requires
            old(self).well_formed(),
            old(self).absorbed(),
        ensures
            final(self).well_formed(),
            final(self).idle(),
            r matches Ok(d) ==> d@.len() == 32,
            r matches Err(ExecutionError::MalformedDigest { length }) ==> length != 32,
            r matches Err(e) ==> !(e matches ExecutionError::AbsorbFailed { .. }),
    {
        let calldata = encode_squeeze_call();
        let outcome = transact(self, calldata);
        self.phase = SpongePhase::Idle;
        match outcome {
            CallOutcome::Success(output) => match crate::abi::decode_digest(&output) {
                Some(digest) => Ok(digest),
                None => Err(ExecutionError::MalformedDigest { length: output.len() }),
            },
            CallOutcome::Failure(detail) => Err(ExecutionError::SqueezeFailed { detail }),
        }
    }

    /// One full pass of the two-call protocol: absorb the input, then
    /// squeeze out the 32-byte digest. The environment is idle again
    /// whatever happened, so iterations chain without any reset in between.
    pub fn candidate_hash(&mut self, input: &Vec<u8>) -> (r: Result<Vec<u8>, ExecutionError>)
        requires
            old(self).well_formed(),
            old(self).idle(),
            input@.len() + 100 <= usize::MAX,
        ensures
            final(self).well_formed(),
            final(self).idle(),
            r matches Ok(d) ==> d@.len() == 32,
    {
        match self.absorb(input) {
            Ok(()) => {},
            Err(e) => {
                return Err(e);
            },
        }
        self.squeeze()
    }
}

} // verus!
