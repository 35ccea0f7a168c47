//! The disk-image build machine: one bootloader-builder invocation
//! followed by the relocation of the produced images.
//!
//! The machine turns a compiled kernel binary into bootable disk images in
//! the output directory. Each non-terminal stage names the one external
//! operation the unverified driver performs next — locating the bootloader
//! tool's build descriptor, locating the kernel's build descriptor, running
//! the builder from the bootloader tool's own root, and relocating each
//! firmware variant — and `disk_step` consumes the outcome. Images are
//! first written beside the kernel binary, then moved into the output
//! directory by the per-variant machine in `crate::materialize`.

use vstd::prelude::*;

use crate::cmdline::builder_argv;
use crate::cmdline::builder_argv_spec;
use crate::cmdline::seq_views;
use crate::errors::PipelineError;
use crate::materialize::DiskImageSet;
use crate::materialize::DiskImageSetModel;
use crate::paths::file_name_spec;
use crate::paths::join_spec;
use crate::paths::parent_spec;
use crate::paths::path_file_name;
use crate::paths::path_join;
use crate::paths::path_parent;

verus! {

/// The fixed inputs of one disk-image build.
pub struct DiskImageConfig {
    /// Canonical path of the compiled kernel binary.
    pub kernel_binary: String,
    /// Whether UEFI output is requested; when it is not, the builder is
    /// passed an explicit BIOS firmware override.
    pub uefi: bool,
    /// The directory the images are relocated into.
    pub out_dir: String,
}

/// The mathematical value of a `DiskImageConfig`.
pub struct DiskImageConfigModel {
    pub kernel_binary: Seq<char>,
    pub uefi: bool,
    pub out_dir: Seq<char>,
}

impl View for DiskImageConfig {
    type V = DiskImageConfigModel;

    open spec fn view(&self) -> DiskImageConfigModel {
        DiskImageConfigModel {
            kernel_binary: self.kernel_binary@,
            uefi: self.uefi,
            out_dir: self.out_dir@,
        }
    }
}

/// Where the disk-image build stands. Each non-terminal stage names the
/// external operation the driver performs next.
pub enum DiskStage {
    /// Locate the bootloader tool's build descriptor.
    LocateBootloader,
    /// Locate the kernel's build descriptor.
    LocateKernelManifest { bootloader_manifest: String },
    /// Run the bootloader builder with `argv`, from directory `cwd`.
    InvokeBuilder { cwd: String, argv: Vec<String> },
    /// Drive the BIOS variant of the relocation machine.
    MaterializeBios { binary_dir: String, binary_name: String },
    /// Drive the UEFI variant of the relocation machine.
    MaterializeUefi { binary_dir: String, binary_name: String, bios: Option<String> },
    /// Terminal: the images that were produced and relocated.
    Done { images: DiskImageSet },
    /// Terminal: the build failed.
    Failed { error: PipelineError },
}

/// The mathematical value of a `DiskStage`.
pub enum DiskStageModel {
    LocateBootloader,
    LocateKernelManifest { bootloader_manifest: Seq<char> },
    InvokeBuilder { cwd: Seq<char>, argv: Seq<Seq<char>> },
    MaterializeBios { binary_dir: Seq<char>, binary_name: Seq<char> },
    MaterializeUefi { binary_dir: Seq<char>, binary_name: Seq<char>, bios: Option<Seq<char>> },
    Done { images: DiskImageSetModel },
    Failed { error: PipelineError },
}

impl View for DiskStage {
    type V = DiskStageModel;

    open spec fn view(&self) -> DiskStageModel {
        match self {
            DiskStage::LocateBootloader => DiskStageModel::LocateBootloader,
            DiskStage::LocateKernelManifest { bootloader_manifest } => {
                DiskStageModel::LocateKernelManifest { bootloader_manifest: bootloader_manifest@ }
            },
            DiskStage::InvokeBuilder { cwd, argv } => DiskStageModel::InvokeBuilder {
                cwd: cwd@,
                argv: seq_views(argv@),
            },
            DiskStage::MaterializeBios { binary_dir, binary_name } => {
                DiskStageModel::MaterializeBios {
                    binary_dir: binary_dir@,
                    binary_name: binary_name@,
                }
            },
            DiskStage::MaterializeUefi { binary_dir, binary_name, bios } => {
                DiskStageModel::MaterializeUefi {
                    binary_dir: binary_dir@,
                    binary_name: binary_name@,
                    bios: bios.deep_view(),
                }
            },
            DiskStage::Done { images } => DiskStageModel::Done { images: images@ },
            DiskStage::Failed { error } => DiskStageModel::Failed { error: *error },
        }
    }
}

/// The outcome of one external operation the driver performed.
pub enum DiskEvent {
    /// The bootloader tool's build descriptor, if the dependency resolved.
    BootloaderLocated { manifest: Option<String> },
    /// The kernel's build descriptor, if one was found.
    KernelManifestLocated { manifest: Option<String> },
    /// Whether the builder process exited successfully.
    BuilderExited { success: bool },
    /// The terminal outcome of one run of the per-variant relocation
    /// machine: the variant's confirmed path, or its error.
    VariantFinished { outcome: Result<Option<String>, PipelineError> },
}

/// The mathematical value of a `DiskEvent`.
pub enum DiskEventModel {
    BootloaderLocated { manifest: Option<Seq<char>> },
    KernelManifestLocated { manifest: Option<Seq<char>> },
    BuilderExited { success: bool },
    VariantFinished { outcome: Result<Option<Seq<char>>, PipelineError> },
}

impl View for DiskEvent {
    type V = DiskEventModel;

    open spec fn view(&self) -> DiskEventModel {
        match self {
            DiskEvent::BootloaderLocated { manifest } => DiskEventModel::BootloaderLocated {
                manifest: manifest.deep_view(),
            },
            DiskEvent::KernelManifestLocated { manifest } => {
                DiskEventModel::KernelManifestLocated { manifest: manifest.deep_view() }
            },
            DiskEvent::BuilderExited { success } => DiskEventModel::BuilderExited {
                success: *success,
            },
            DiskEvent::VariantFinished { outcome } => DiskEventModel::VariantFinished {
                outcome: match outcome {
                    Ok(path) => Ok(path.deep_view()),
                    Err(e) => Err(*e),
                },
            },
        }
    }
}

/// The stage that follows a located kernel manifest: the builder invocation
/// is assembled from the bootloader root, the kernel manifest, the kernel
/// binary, an explicit target directory derived from the kernel's own
/// descriptor, and the kernel binary's directory as the initial output
/// directory. Any missing parent is a terminal resolution error.
pub open spec fn builder_stage_model(
    cfg: DiskImageConfigModel,
    bootloader_manifest: Seq<char>,
    kernel_manifest: Seq<char>,
) -> DiskStageModel {
    match parent_spec(bootloader_manifest) {
        None => DiskStageModel::Failed { error: PipelineError::RootNotFound },
        Some(bootloader_root) => match parent_spec(kernel_manifest) {
            None => DiskStageModel::Failed { error: PipelineError::RootNotFound },
            Some(kernel_root) => match parent_spec(cfg.kernel_binary) {
                None => DiskStageModel::Failed { error: PipelineError::RootNotFound },
                Some(binary_dir) => DiskStageModel::InvokeBuilder {
                    cwd: bootloader_root,
                    argv: builder_argv_spec(
                        kernel_manifest,
                        cfg.kernel_binary,
                        join_spec(kernel_root, "target"@),
                        binary_dir,
                        cfg.uefi,
                    ),
                },
            },
        },
    }
}

/// The stage that follows a successful builder run: relocation starts with
/// the BIOS variant, named after the kernel binary's file name.
pub open spec fn materialize_stage_model(cfg: DiskImageConfigModel) -> DiskStageModel {
    if file_name_spec(cfg.kernel_binary).len() == 0 {
        DiskStageModel::Failed { error: PipelineError::RootNotFound }
    } else {
        match parent_spec(cfg.kernel_binary) {
            None => DiskStageModel::Failed { error: PipelineError::RootNotFound },
            Some(binary_dir) => DiskStageModel::MaterializeBios {
                binary_dir,
                binary_name: file_name_spec(cfg.kernel_binary),
            },
        }
    }
}

/// The full transition table of the disk-image build machine. Failures are
/// terminal; an event that does not belong to the stage changes nothing.
pub open spec fn disk_step_model(
    cfg: DiskImageConfigModel,
    stage: DiskStageModel,
    event: DiskEventModel,
) -> DiskStageModel {
    match (stage, event) {
        (DiskStageModel::LocateBootloader, DiskEventModel::BootloaderLocated { manifest }) => {
            match manifest {
                Some(m) => DiskStageModel::LocateKernelManifest { bootloader_manifest: m },
                None => DiskStageModel::Failed { error: PipelineError::BootloaderNotFound },
            }
        },
        (
            DiskStageModel::LocateKernelManifest { bootloader_manifest },
            DiskEventModel::KernelManifestLocated { manifest },
        ) => {
            match manifest {
                Some(m) => builder_stage_model(cfg, bootloader_manifest, m),
                None => DiskStageModel::Failed { error: PipelineError::ManifestNotFound },
            }
        },
        (DiskStageModel::InvokeBuilder { .. }, DiskEventModel::BuilderExited { success }) => {
            if success {
                materialize_stage_model(cfg)
            } else {
                DiskStageModel::Failed { error: PipelineError::BuildFailed }
            }
        },
        (
            DiskStageModel::MaterializeBios { binary_dir, binary_name },
            DiskEventModel::VariantFinished { outcome },
        ) => {
            match outcome {
                Ok(path) => DiskStageModel::MaterializeUefi { binary_dir, binary_name, bios: path },
                Err(e) => DiskStageModel::Failed { error: e },
            }
        },
        (
            DiskStageModel::MaterializeUefi { bios, .. },
            DiskEventModel::VariantFinished { outcome },
        ) => {
            match outcome {
                Ok(path) => DiskStageModel::Done {
                    images: DiskImageSetModel { bios, uefi: path },
                },
                Err(e) => DiskStageModel::Failed { error: e },
            }
        },
        (s, _) => s,
    }
}

/// The stage a disk-image build starts in.
pub fn start_disk_image() -> (s: DiskStage)
    ensures
        s@ == DiskStageModel::LocateBootloader,
{
    DiskStage::LocateBootloader
}

/// Advance the disk-image build by one driver outcome.
pub fn disk_step(cfg: &DiskImageConfig, stage: DiskStage, event: DiskEvent) -> (next: DiskStage)
    ensures
        next@ == disk_step_model(cfg@, stage@, event@),
{
    match (stage, event) {
        (DiskStage::LocateBootloader, DiskEvent::BootloaderLocated { manifest }) => {
            match manifest {
                Some(m) => DiskStage::LocateKernelManifest { bootloader_manifest: m },
                None => DiskStage::Failed { error: PipelineError::BootloaderNotFound },
            }
        },
        (
            DiskStage::LocateKernelManifest { bootloader_manifest },
            DiskEvent::KernelManifestLocated { manifest },
        ) => {
            match manifest {
                Some(m) => builder_stage(cfg, bootloader_manifest.as_str(), m.as_str()),
                None => DiskStage::Failed { error: PipelineError::ManifestNotFound },
            }
        },
        (DiskStage::InvokeBuilder { .. }, DiskEvent::BuilderExited { success }) => {
            if success {
                materialize_stage(cfg)
            } else {
                DiskStage::Failed { error: PipelineError::BuildFailed }
            }
        },
        (
            DiskStage::MaterializeBios { binary_dir, binary_name },
            DiskEvent::VariantFinished { outcome },
        ) => {
            match outcome {
                Ok(path) => DiskStage::MaterializeUefi { binary_dir, binary_name, bios: path },
                Err(e) => DiskStage::Failed { error: e },
            }
        },
        (DiskStage::MaterializeUefi { bios, .. }, DiskEvent::VariantFinished { outcome }) => {
            match outcome {
                Ok(path) => DiskStage::Done {
                    images: DiskImageSet { bios, uefi: path },
                },
                Err(e) => DiskStage::Failed { error: e },
            }
        },
        (s, _) => s,
    }
}

/// Assemble the builder invocation once both build descriptors are located.
fn builder_stage(cfg: &DiskImageConfig, bootloader_manifest: &str, kernel_manifest: &str) -> (next:
    DiskStage)
    ensures
        next@ == builder_stage_model(cfg@, bootloader_manifest@, kernel_manifest@),
{
    let bootloader_root = match path_parent(bootloader_manifest) {
        Some(root) => root,
        None => {
            return DiskStage::Failed { error: PipelineError::RootNotFound };
        },
    };
    let kernel_root = match path_parent(kernel_manifest) {
        Some(root) => root,
        None => {
            return DiskStage::Failed { error: PipelineError::RootNotFound };
        },
    };
    let binary_dir = match path_parent(cfg.kernel_binary.as_str()) {
        Some(dir) => dir,
        None => {
            return DiskStage::Failed { error: PipelineError::RootNotFound };
        },
    };
    let target_dir = path_join(kernel_root.as_str(), "target");
    let argv = builder_argv(
        kernel_manifest,
        cfg.kernel_binary.as_str(),
        target_dir.as_str(),
        binary_dir.as_str(),
        cfg.uefi,
    );
    DiskStage::InvokeBuilder { cwd: bootloader_root, argv }
}

/// A failed disk-image build stays failed, and a completed one stays
/// completed: no later outcome revives or alters a terminal stage.
pub proof fn lemma_disk_terminal_stages_are_stable(
    cfg: DiskImageConfigModel,
    stage: DiskStageModel,
    event: DiskEventModel,
)
    requires
        stage is Failed || stage is Done,
    ensures
        disk_step_model(cfg, stage, event) == stage,
{
}

/// Begin relocation after a successful builder run.
fn materialize_stage(cfg: &DiskImageConfig) -> (next: DiskStage)
    ensures
        next@ == materialize_stage_model(cfg@),
{
    let binary_name = match path_file_name(cfg.kernel_binary.as_str()) {
        Some(name) => name,
        None => {
            return DiskStage::Failed { error: PipelineError::RootNotFound };
        },
    };
    match path_parent(cfg.kernel_binary.as_str()) {
        Some(binary_dir) => DiskStage::MaterializeBios { binary_dir, binary_name },
        None => DiskStage::Failed { error: PipelineError::RootNotFound },
    }
}

} // verus!
