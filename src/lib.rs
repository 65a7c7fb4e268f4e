//! A verified driver for a PKCS#11 key-wrap equivalence run.
//!
//! The run provisions a fresh token, generates two extractable AES-128 keys,
//! wraps one under the other with AES-CBC for two initialization vectors,
//! encrypts the raw key bytes with the same mechanism, and checks that key
//! wrap and plain encryption agree while the IV changes the output.
use vstd::prelude::*;

pub mod config;
pub mod error;
pub mod oracle;
pub mod provider;
pub mod run;
pub mod select;

verus! {

} // verus!
