//! A build-and-run pipeline for bare-metal kernel disk images.
//!
//! The library holds the verified core of the pipeline: path derivation,
//! command-line construction for the external tools, the decision logic of
//! the build, materialization and emulator-supervision state machines, and
//! the exit-code protocol of the emulated kernel. All input/output — process
//! spawning, filesystem moves, waiting on children — is performed by an
//! unverified driver that feeds each outcome back into the state machines
//! defined here.

pub mod cmdline;
pub mod diskimage;
pub mod errors;
pub mod fsmodel;
pub mod materialize;
pub mod orchestrator;
pub mod paths;
pub mod resolver;
pub mod supervisor;

pub use supervisor::remap_exit_code;
pub use supervisor::remap_spec;
