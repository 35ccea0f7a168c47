//! Error taxonomy of the pipeline.
//!
//! Every stage of the pipeline fails terminally: no stage retries or
//! recovers. One enum covers configuration errors, resolution errors,
//! external-process failures and filesystem errors during relocation.

use vstd::prelude::*;

verus! {

/// A terminal pipeline failure.
#[derive(Clone, Copy, Debug, PartialEq, Eq, Structural)]
pub enum PipelineError {
    /// The output directory does not exist and auto-creation is disabled.
    OutNotExist,
    /// The output directory could not be created.
    CreateDirFailed,
    /// The compiler or the bootloader builder exited unsuccessfully.
    BuildFailed,
    /// No build descriptor was found upward from the working directory.
    ManifestNotFound,
    /// The build descriptor declares no package identity.
    KernelManifest,
    /// The bootloader tool's build descriptor is not reachable from the
    /// dependency graph.
    BootloaderNotFound,
    /// A path that must have a parent or a file name component has none.
    RootNotFound,
    /// The derived kernel binary path could not be resolved on disk.
    BinaryNotFound,
    /// Relocating a produced disk image failed.
    Move,
    /// A relocated disk image could not be resolved at its destination.
    FindMoved,
}

impl PipelineError {
    /// A short human-readable description, for the unverified driver to log.
    pub fn message(&self) -> &'static str {
        match self {
            PipelineError::OutNotExist => "output directory does not exist",
            PipelineError::CreateDirFailed => "could not create the output directory",
            PipelineError::BuildFailed => "external build command failed",
            PipelineError::ManifestNotFound => "no kernel build descriptor found",
            PipelineError::KernelManifest => "kernel build descriptor declares no package",
            PipelineError::BootloaderNotFound => "bootloader dependency not found",
            PipelineError::RootNotFound => "a path is missing an expected component",
            PipelineError::BinaryNotFound => "compiled kernel binary not found",
            PipelineError::Move => "could not move a disk image to the output directory",
            PipelineError::FindMoved => "a moved disk image is missing from the output directory",
        }
    }
}

} // verus!
