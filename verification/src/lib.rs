//! Verified building blocks of the Morpheum SDK: request builders, domain
//! types and the byte-level encodings used for cross-chain messaging.
pub mod common;
pub mod cosmwasm;
pub mod dao;
pub mod evm;
pub mod json;
pub mod gmp;
pub mod insurance;
pub mod intent;
pub mod directory;
pub mod identity;
pub mod inference_registry;
pub mod gov;
pub mod fundingrate;
