//! A fixed-rate asset-exchange service, modeled and verified.
//!
//! A user deposits units of a native asset and receives a proportional
//! amount of a derivative (minted) asset, at a rate controlled by a
//! designated owner. The library verifies the instruction/authority state
//! machine: a singleton configuration record, owner-gated mutation of the
//! exchange parameters, overflow-safe rate arithmetic, and a derived
//! (non-keypair) signing authority used to mint the derivative asset on
//! behalf of the program itself.

pub mod authority;
pub mod errors;
pub mod identity;
pub mod instructions;
pub mod state;
