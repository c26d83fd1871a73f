//! Descriptors for hierarchical-deterministic wallets, and the bookkeeping
//! of a light-client sync session.
//!
//! Given an extended key and a script policy, `utils` derives the public
//! and private output descriptors of the receiving and the change keychain
//! and reports the fingerprint of the key. `keys`, `path` and `descriptor`
//! hold the parts that this is made of, `laws` what holds of the result for
//! every key. `sync` follows a sync session from its start to its end;
//! `client`, `wallet` and `policy` decide what to build or look up from a
//! wallet's options.

pub mod client;
pub mod descriptor;
pub mod error;
pub mod keys;
pub mod laws;
pub mod mnemonic;
pub mod network;
pub mod options;
pub mod path;
pub mod policy;
pub mod sync;
pub mod text;
pub mod utils;
pub mod wallet;
