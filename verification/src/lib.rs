//! Environment-driven contract deployment orchestration.
//!
//! Given a declarative description of environments (networks, signing
//! accounts and workspace contracts), the library resolves the target
//! network, selects a default signing account and drives every contract
//! flagged for deployment through a fixed pipeline: install the bytecode,
//! instantiate the contract, generate client bindings and write an
//! importable client stub.
//!
//! All outward-facing work (reading the configuration document, talking to
//! the network toolchain, writing files, publishing process-wide values) is
//! performed by the caller: the library is a verified decision core that
//! says, step by step, what must be done next.

pub mod build_clients;
pub mod env_toml;
pub mod runner;
pub mod text;
