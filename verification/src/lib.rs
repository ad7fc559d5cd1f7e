//! Witness building and proof lifecycle rules for replaying one contract
//! call against remotely fetched chain state.

pub mod uint256;
pub mod witness;
pub mod job;
pub mod links;
pub mod attest;
pub mod artifact;
pub mod store;
pub mod provider;
pub mod cert;
pub mod conversion;
pub mod hash;
pub mod verify;
mod text;
