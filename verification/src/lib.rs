//! A minimal invocation layer between a consensus engine and an on-chain
//! management contract.
//!
//! The crate offers exactly two operations on a [`BoundContract`]: a read-only
//! call whose returned bytes are decoded into a typed value, and a zero-fee
//! service-transaction submission with a narrow idempotency policy. Failures
//! of the three underlying domains (execution, decoding, submission) are
//! unified in the [`CallError`] taxonomy.

mod client;
mod contract;
mod decoder;
mod error;
mod warnings;

pub use client::BlockId;
pub use client::EngineClient;
pub use client::ServiceTransaction;
pub use client::StaticClient;
pub use contract::BoundContract;
pub use contract::decode_call_output;
pub use contract::lemma_duplicate_submission_succeeds;
pub use contract::lemma_other_rejection_surfaces;
pub use contract::lemma_read_follows_decoder;
pub use contract::lemma_stale_rejection_suppressed;
pub use contract::resolve_submission;
pub use contract::service_transaction;
pub use contract::spec_read_result;
pub use contract::spec_records_after;
pub use contract::spec_submit_result;
pub use contract::stale_warning_text;
pub use decoder::BoolDecoder;
pub use decoder::OutputDecoder;
pub use decoder::encode_bool;
pub use decoder::lemma_bool_round_trip;
pub use decoder::spec_decode_bool;
pub use decoder::spec_encode_bool;
pub use error::CallError;
pub use error::DecodeError;
pub use error::TransactionError;
pub use warnings::WarningLog;
pub use warnings::WarningSink;
