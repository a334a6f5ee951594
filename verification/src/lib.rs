//! A verified model of a single-instruction token program: it validates the
//! caller-supplied accounts, derives the program-owned mint address from a
//! fixed label and a disambiguation byte, and assembles the delegated call
//! that registers the token's metadata with the external registrar.
//!
//! The effectful parts (account creation and the cross-program call) are
//! performed by the surrounding program shell; this crate decides and
//! computes, and every function here carries a contract.

pub mod addr;
pub mod pda;
pub mod params;
pub mod accounts;
pub mod registrar;
pub mod handler;
