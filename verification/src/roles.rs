//! The role operations: stateless transformations applied to a document as it
//! travels between the parties assembling the transaction.

pub mod constructor;
pub mod creator;
pub mod io_finalizer;
pub mod prover;
pub mod redactor;
pub mod signer;
pub mod spend_finalizer;
pub mod tx_extractor;
