//! Verified core of a cross-chain order book: order identifiers, calldata and
//! instruction encodings, on-chain validation rules, solver decisions and the
//! indexer's record mapping.
pub mod bytes;
pub mod hash;
pub mod order_id;
pub mod program;
pub mod solana;
pub mod clock;
pub mod solver;
pub mod text;
pub mod pb;
pub mod layout;
pub mod indexer;
pub mod builder;
pub mod instruction;
pub mod evm_builder;
pub mod svm_builder;
pub mod models;
pub mod quote;
