//! The build orchestrator: a linear pipeline of fallible stages.
//!
//! `ValidateOutputDir → CompileKernel → ResolveDescriptor →
//! ResolveBinaryPath → CreateDiskImage → Report`, with no branch back. Each
//! non-terminal stage names the one external operation the unverified
//! driver performs next, and `build_step` consumes its outcome; any failure
//! short-circuits the whole pipeline into the terminal `Failed` stage. The
//! output directory is validated before anything else, so a missing
//! directory without auto-creation fails before any external process is
//! spawned.

use vstd::prelude::*;

use crate::cmdline::seq_views;
use crate::cmdline::split_build_command;
use crate::cmdline::split_spec;
use crate::errors::PipelineError;
use crate::materialize::DiskImageSet;
use crate::materialize::DiskImageSetModel;
use crate::resolver::derive_binary_path;
use crate::resolver::derive_binary_path_spec;
use crate::resolver::derive_target_dir;
use crate::resolver::derive_target_dir_spec;

verus! {

/// The fixed inputs of one build operation.
pub struct BuildConfig {
    /// The directory the finished images are placed in.
    pub out_dir: String,
    /// Whether a missing output directory may be created.
    pub create_out: bool,
    /// The caller-supplied kernel build command, subdivided on spaces.
    pub build_cmd: String,
    /// The target triple the kernel is compiled for.
    pub target_triple: String,
    /// Whether a BIOS image is requested.
    pub bios: bool,
    /// Whether a UEFI image is requested.
    pub uefi: bool,
}

/// The mathematical value of a `BuildConfig`.
pub struct BuildConfigModel {
    pub out_dir: Seq<char>,
    pub create_out: bool,
    pub build_cmd: Seq<char>,
    pub target_triple: Seq<char>,
    pub bios: bool,
    pub uefi: bool,
}

impl View for BuildConfig {
    type V = BuildConfigModel;

    open spec fn view(&self) -> BuildConfigModel {
        BuildConfigModel {
            out_dir: self.out_dir@,
            create_out: self.create_out,
            build_cmd: self.build_cmd@,
            target_triple: self.target_triple@,
            bios: self.bios,
            uefi: self.uefi,
        }
    }
}

/// Where the build pipeline stands. Each non-terminal stage names the
/// external operation the driver performs next.
pub enum BuildStage {
    /// Check whether the output directory exists.
    ValidateOutputDir,
    /// Create the output directory and its missing parents.
    CreateOutputDir,
    /// Run the kernel compiler with `argv`, in the working directory.
    CompileKernel { argv: Vec<String> },
    /// Locate the kernel's build descriptor.
    ResolveDescriptor,
    /// Read the package name out of the located descriptor.
    ReadPackageName { descriptor: String },
    /// Canonicalize the derived kernel binary path.
    CanonicalizeBinary { binary: String },
    /// Drive the disk-image build machine for the canonical binary.
    CreateDiskImage { binary: String },
    /// Terminal: report which images were produced.
    Report { images: DiskImageSet },
    /// Terminal: the pipeline failed.
    Failed { error: PipelineError },
}

/// The mathematical value of a `BuildStage`.
pub enum BuildStageModel {
    ValidateOutputDir,
    CreateOutputDir,
    CompileKernel { argv: Seq<Seq<char>> },
    ResolveDescriptor,
    ReadPackageName { descriptor: Seq<char> },
    CanonicalizeBinary { binary: Seq<char> },
    CreateDiskImage { binary: Seq<char> },
    Report { images: DiskImageSetModel },
    Failed { error: PipelineError },
}

impl View for BuildStage {
    type V = BuildStageModel;

    open spec fn view(&self) -> BuildStageModel {
        match self {
            BuildStage::ValidateOutputDir => BuildStageModel::ValidateOutputDir,
            BuildStage::CreateOutputDir => BuildStageModel::CreateOutputDir,
            BuildStage::CompileKernel { argv } => BuildStageModel::CompileKernel {
                argv: seq_views(argv@),
            },
            BuildStage::ResolveDescriptor => BuildStageModel::ResolveDescriptor,
            BuildStage::ReadPackageName { descriptor } => BuildStageModel::ReadPackageName {
                descriptor: descriptor@,
            },
            BuildStage::CanonicalizeBinary { binary } => BuildStageModel::CanonicalizeBinary {
                binary: binary@,
            },
            BuildStage::CreateDiskImage { binary } => BuildStageModel::CreateDiskImage {
                binary: binary@,
            },
            BuildStage::Report { images } => BuildStageModel::Report { images: images@ },
            BuildStage::Failed { error } => BuildStageModel::Failed { error: *error },
        }
    }
}

/// The outcome of one external operation the driver performed.
pub enum BuildEvent {
    /// Whether the output directory exists.
    OutputDirChecked { exists: bool },
    /// Whether creating the output directory succeeded.
    OutputDirCreated { ok: bool },
    /// Whether the kernel compiler exited successfully.
    CompilerExited { success: bool },
    /// The located build descriptor, if one was found.
    DescriptorLocated { descriptor: Option<String> },
    /// The package name the descriptor declares, if any.
    PackageNameRead { name: Option<String> },
    /// The canonical kernel binary path, if it resolved on disk.
    BinaryCanonicalized { binary: Option<String> },
    /// The terminal outcome of the disk-image build machine.
    DiskImageFinished { outcome: Result<DiskImageSet, PipelineError> },
}

/// The mathematical value of a `BuildEvent`.
pub enum BuildEventModel {
    OutputDirChecked { exists: bool },
    OutputDirCreated { ok: bool },
    CompilerExited { success: bool },
    DescriptorLocated { descriptor: Option<Seq<char>> },
    PackageNameRead { name: Option<Seq<char>> },
    BinaryCanonicalized { binary: Option<Seq<char>> },
    DiskImageFinished { outcome: Result<DiskImageSetModel, PipelineError> },
}

impl View for BuildEvent {
    type V = BuildEventModel;

    open spec fn view(&self) -> BuildEventModel {
        match self {
            BuildEvent::OutputDirChecked { exists } => BuildEventModel::OutputDirChecked {
                exists: *exists,
            },
            BuildEvent::OutputDirCreated { ok } => BuildEventModel::OutputDirCreated { ok: *ok },
            BuildEvent::CompilerExited { success } => BuildEventModel::CompilerExited {
                success: *success,
            },
            BuildEvent::DescriptorLocated { descriptor } => BuildEventModel::DescriptorLocated {
                descriptor: descriptor.deep_view(),
            },
            BuildEvent::PackageNameRead { name } => BuildEventModel::PackageNameRead {
                name: name.deep_view(),
            },
            BuildEvent::BinaryCanonicalized { binary } => BuildEventModel::BinaryCanonicalized {
                binary: binary.deep_view(),
            },
            BuildEvent::DiskImageFinished { outcome } => BuildEventModel::DiskImageFinished {
                outcome: match outcome {
                    Ok(images) => Ok(images@),
                    Err(e) => Err(*e),
                },
            },
        }
    }
}

/// The compilation stage, with the build command subdivided into argv.
pub open spec fn compile_stage_model(cfg: BuildConfigModel) -> BuildStageModel {
    BuildStageModel::CompileKernel { argv: split_spec(cfg.build_cmd, false) }
}

/// The stage that follows a read package name: the expected binary path is
/// derived from the descriptor's root, the target triple and the package
/// name, and is canonicalized next. A descriptor without a parent is a
/// terminal resolution error.
pub open spec fn binary_stage_model(
    cfg: BuildConfigModel,
    descriptor: Seq<char>,
    package: Seq<char>,
) -> BuildStageModel {
    match derive_target_dir_spec(descriptor, cfg.target_triple) {
        Some(target_dir) => BuildStageModel::CanonicalizeBinary {
            binary: derive_binary_path_spec(target_dir, package),
        },
        None => BuildStageModel::Failed { error: PipelineError::RootNotFound },
    }
}

/// The full transition table of the build pipeline. Failures are terminal;
/// an event that does not belong to the stage changes nothing.
pub open spec fn build_step_model(
    cfg: BuildConfigModel,
    stage: BuildStageModel,
    event: BuildEventModel,
) -> BuildStageModel {
    match (stage, event) {
        (BuildStageModel::ValidateOutputDir, BuildEventModel::OutputDirChecked { exists }) => {
            if exists {
                compile_stage_model(cfg)
            } else if cfg.create_out {
                BuildStageModel::CreateOutputDir
            } else {
                BuildStageModel::Failed { error: PipelineError::OutNotExist }
            }
        },
        (BuildStageModel::CreateOutputDir, BuildEventModel::OutputDirCreated { ok }) => {
            if ok {
                compile_stage_model(cfg)
            } else {
                BuildStageModel::Failed { error: PipelineError::CreateDirFailed }
            }
        },
        (BuildStageModel::CompileKernel { .. }, BuildEventModel::CompilerExited { success }) => {
            if success {
                BuildStageModel::ResolveDescriptor
            } else {
                BuildStageModel::Failed { error: PipelineError::BuildFailed }
            }
        },
        (BuildStageModel::ResolveDescriptor, BuildEventModel::DescriptorLocated { descriptor }) => {
            match descriptor {
                Some(d) => BuildStageModel::ReadPackageName { descriptor: d },
                None => BuildStageModel::Failed { error: PipelineError::ManifestNotFound },
            }
        },
        (
            BuildStageModel::ReadPackageName { descriptor },
            BuildEventModel::PackageNameRead { name },
        ) => {
            match name {
                Some(package) => binary_stage_model(cfg, descriptor, package),
                None => BuildStageModel::Failed { error: PipelineError::KernelManifest },
            }
        },
        (
            BuildStageModel::CanonicalizeBinary { .. },
            BuildEventModel::BinaryCanonicalized { binary },
        ) => {
            match binary {
                Some(b) => BuildStageModel::CreateDiskImage { binary: b },
                None => BuildStageModel::Failed { error: PipelineError::BinaryNotFound },
            }
        },
        (
            BuildStageModel::CreateDiskImage { .. },
            BuildEventModel::DiskImageFinished { outcome },
        ) => {
            match outcome {
                Ok(images) => BuildStageModel::Report { images },
                Err(e) => BuildStageModel::Failed { error: e },
            }
        },
        (s, _) => s,
    }
}

/// The stage the build pipeline starts in.
pub fn start_build() -> (s: BuildStage)
    ensures
        s@ == BuildStageModel::ValidateOutputDir,
{
    BuildStage::ValidateOutputDir
}

/// Advance the build pipeline by one driver outcome.
pub fn build_step(cfg: &BuildConfig, stage: BuildStage, event: BuildEvent) -> (next: BuildStage)
    ensures
        next@ == build_step_model(cfg@, stage@, event@),
{
    match (stage, event) {
        (BuildStage::ValidateOutputDir, BuildEvent::OutputDirChecked { exists }) => {
            if exists {
                compile_stage(cfg)
            } else if cfg.create_out {
                BuildStage::CreateOutputDir
            } else {
                BuildStage::Failed { error: PipelineError::OutNotExist }
            }
        },
        (BuildStage::CreateOutputDir, BuildEvent::OutputDirCreated { ok }) => {
            if ok {
                compile_stage(cfg)
            } else {
                BuildStage::Failed { error: PipelineError::CreateDirFailed }
            }
        },
        (BuildStage::CompileKernel { .. }, BuildEvent::CompilerExited { success }) => {
            if success {
                BuildStage::ResolveDescriptor
            } else {
                BuildStage::Failed { error: PipelineError::BuildFailed }
            }
        },
        (BuildStage::ResolveDescriptor, BuildEvent::DescriptorLocated { descriptor }) => {
            match descriptor {
                Some(d) => BuildStage::ReadPackageName { descriptor: d },
                None => BuildStage::Failed { error: PipelineError::ManifestNotFound },
            }
        },
        (BuildStage::ReadPackageName { descriptor }, BuildEvent::PackageNameRead { name }) => {
            match name {
                Some(package) => {
                    match derive_target_dir(descriptor.as_str(), cfg.target_triple.as_str()) {
                        Ok(target_dir) => BuildStage::CanonicalizeBinary {
                            binary: derive_binary_path(target_dir.as_str(), package.as_str()),
                        },
                        Err(e) => BuildStage::Failed { error: e },
                    }
                },
                None => BuildStage::Failed { error: PipelineError::KernelManifest },
            }
        },
        (BuildStage::CanonicalizeBinary { .. }, BuildEvent::BinaryCanonicalized { binary }) => {
            match binary {
                Some(b) => BuildStage::CreateDiskImage { binary: b },
                None => BuildStage::Failed { error: PipelineError::BinaryNotFound },
            }
        },
        (BuildStage::CreateDiskImage { .. }, BuildEvent::DiskImageFinished { outcome }) => {
            match outcome {
                Ok(images) => BuildStage::Report { images },
                Err(e) => BuildStage::Failed { error: e },
            }
        },
        (s, _) => s,
    }
}

/// Assemble the compilation stage from the configured build command.
fn compile_stage(cfg: &BuildConfig) -> (next: BuildStage)
    ensures
        next@ == compile_stage_model(cfg@),
{
    BuildStage::CompileKernel { argv: split_build_command(cfg.build_cmd.as_str()) }
}

/// Whether a requested firmware variant is missing from the produced set.
/// The build path reports this rather than hard-failing; the policy is the
/// caller's, made explicit here.
pub open spec fn missing_requested_spec(cfg: BuildConfigModel, images: DiskImageSetModel) -> bool {
    (cfg.bios && images.bios is None) || (cfg.uefi && images.uefi is None)
}

/// Decide whether a requested firmware variant is missing from the set.
pub fn missing_requested_variant(cfg: &BuildConfig, images: &DiskImageSet) -> (r: bool)
    ensures
        r == missing_requested_spec(cfg@, images@),
{
    (cfg.bios && images.bios.is_none()) || (cfg.uefi && images.uefi.is_none())
}

/// The pipeline after a whole sequence of driver outcomes.
pub open spec fn build_run_model(
    cfg: BuildConfigModel,
    stage: BuildStageModel,
    events: Seq<BuildEventModel>,
) -> BuildStageModel
    decreases events.len(),
{
    if events.len() == 0 {
        stage
    } else {
        build_run_model(cfg, build_step_model(cfg, stage, events[0]), events.drop_first())
    }
}

/// Whether a stage spawns an external process when the driver serves it.
pub open spec fn spawns_process(stage: BuildStageModel) -> bool {
    stage is CompileKernel || stage is CreateDiskImage
}

/// A failed pipeline stays failed: no later outcome revives it.
pub proof fn lemma_failed_is_terminal(
    cfg: BuildConfigModel,
    error: PipelineError,
    events: Seq<BuildEventModel>,
)
    ensures
        build_run_model(cfg, BuildStageModel::Failed { error }, events) == (BuildStageModel::Failed {
            error,
        }),
    decreases events.len(),
{
    if events.len() > 0 {
        lemma_failed_is_terminal(cfg, error, events.drop_first());
    }
}

/// If the output directory does not exist and auto-creation is disabled,
/// the pipeline fails with the configuration error at once, and no stage
/// that spawns an external process is ever reached — in particular, no
/// compiler invocation occurs.
pub proof fn lemma_no_spawn_without_output_dir(
    cfg: BuildConfigModel,
    events: Seq<BuildEventModel>,
)
    requires
        !cfg.create_out,
        events.len() >= 1,
        events[0] == (BuildEventModel::OutputDirChecked { exists: false }),
    ensures
        build_run_model(cfg, BuildStageModel::ValidateOutputDir, events) == (BuildStageModel::Failed {
            error: PipelineError::OutNotExist,
        }),
        forall|i: int|
            0 <= i <= events.len() ==> !spawns_process(
                build_run_model(cfg, BuildStageModel::ValidateOutputDir, events.take(i)),
            ),
{
    let init = BuildStageModel::ValidateOutputDir;
    let failed = BuildStageModel::Failed { error: PipelineError::OutNotExist };
    assert(build_step_model(cfg, init, events[0]) == failed);
    lemma_failed_is_terminal(cfg, PipelineError::OutNotExist, events.drop_first());
    assert forall|i: int|
        0 <= i <= events.len() implies !spawns_process(
        build_run_model(cfg, init, events.take(i)),
    ) by {
        if i == 0 {
            assert(events.take(0) =~= Seq::<BuildEventModel>::empty());
            assert(build_run_model(cfg, init, events.take(0)) == init);
        } else {
            let t = events.take(i);
            assert(t[0] == events[0]);
            assert(t.drop_first() =~= events.drop_first().take(i - 1));
            assert(build_run_model(cfg, init, t) == build_run_model(
                cfg,
                failed,
                t.drop_first(),
            ));
            lemma_failed_is_terminal(cfg, PipelineError::OutNotExist, t.drop_first());
        }
    }
}

} // verus!
