//! A differential-testing engine for a fixed-output hash primitive: a pure
//! reference Keccak-256 backend is compared, input by input, against a
//! candidate implementation hosted as deployed code inside a deterministic
//! execution environment and driven through a two-call absorb/squeeze
//! protocol. Workers run independent shares of the iteration budget and the
//! first mismatch or execution fault ends the run.

mod abi;
mod bytes;
mod config;
mod decimal;
mod environment;
mod generator;
mod hexcodec;
mod reference;
mod worker;

pub use abi::decode_digest;
pub use abi::encode_absorb_call;
pub use abi::encode_squeeze_call;
pub use config::ConfigurationError;
pub use config::FuzzConfiguration;
pub use environment::CandidateEnv;
pub use environment::DeployError;
pub use environment::ExecutionError;
pub use generator::generate_input;
pub use hexcodec::hex_decode;
pub use hexcodec::hex_encode;
pub use hexcodec::HexDecodeError;
pub use reference::reference_hash;
pub use worker::run_iteration;
pub use worker::run_worker;
pub use worker::FuzzError;
pub use worker::MismatchReport;
