//! Relocation of the produced disk images into the output directory.
//!
//! After a successful builder invocation the two conventional candidate
//! artifacts share the kernel binary's directory. Each candidate that
//! exists is moved to a fixed name under the output directory and then
//! canonicalized; an absent candidate means that firmware variant was not
//! produced, which is not an error by itself. The relocation of one
//! variant is a small state machine: the unverified driver performs the
//! existence check, the rename and the canonicalization, and feeds each
//! outcome back into `variant_step`.

use vstd::prelude::*;
use vstd::string::StringExecFns;

use crate::errors::PipelineError;
use crate::paths::join_spec;
use crate::paths::path_join;

verus! {

/// The disk images a successful build produced, by firmware variant.
#[derive(Debug)]
pub struct DiskImageSet {
    /// The canonical path of the relocated BIOS image, if one was produced.
    pub bios: Option<String>,
    /// The canonical path of the relocated UEFI image, if one was produced.
    pub uefi: Option<String>,
}

/// The mathematical value of a `DiskImageSet`.
pub struct DiskImageSetModel {
    pub bios: Option<Seq<char>>,
    pub uefi: Option<Seq<char>>,
}

impl View for DiskImageSet {
    type V = DiskImageSetModel;

    open spec fn view(&self) -> DiskImageSetModel {
        DiskImageSetModel { bios: self.bios.deep_view(), uefi: self.uefi.deep_view() }
    }
}

/// The conventional BIOS artifact name beside a kernel binary.
pub open spec fn bios_candidate_spec(binary_name: Seq<char>) -> Seq<char> {
    "bootimage-bios-"@ + binary_name + ".img"@
}

/// The conventional UEFI artifact name beside a kernel binary.
pub open spec fn uefi_candidate_spec(binary_name: Seq<char>) -> Seq<char> {
    "bootimage-uefi-"@ + binary_name + ".img"@
}

/// The fixed BIOS destination under the output directory.
pub open spec fn bios_dest_spec(out_dir: Seq<char>) -> Seq<char> {
    join_spec(out_dir, "bios.img"@)
}

/// The fixed UEFI destination under the output directory.
pub open spec fn uefi_dest_spec(out_dir: Seq<char>) -> Seq<char> {
    join_spec(out_dir, "uefi.img"@)
}

/// One planned relocation: the candidate artifact and its fixed destination.
pub struct MaterializePlan {
    pub src: String,
    pub dst: String,
}

/// Plan the BIOS relocation for a kernel binary and an output directory.
pub fn bios_plan(binary_dir: &str, binary_name: &str, out_dir: &str) -> (p: MaterializePlan)
    ensures
        p.src@ == join_spec(binary_dir@, bios_candidate_spec(binary_name@)),
        p.dst@ == bios_dest_spec(out_dir@),
{
    let candidate = concat3("bootimage-bios-", binary_name, ".img");
    proof {
        assert(candidate@ =~= bios_candidate_spec(binary_name@));
    }
    MaterializePlan {
        src: path_join(binary_dir, candidate.as_str()),
        dst: path_join(out_dir, "bios.img"),
    }
}

/// Plan the UEFI relocation for a kernel binary and an output directory.
pub fn uefi_plan(binary_dir: &str, binary_name: &str, out_dir: &str) -> (p: MaterializePlan)
    ensures
        p.src@ == join_spec(binary_dir@, uefi_candidate_spec(binary_name@)),
        p.dst@ == uefi_dest_spec(out_dir@),
{
    let candidate = concat3("bootimage-uefi-", binary_name, ".img");
    proof {
        assert(candidate@ =~= uefi_candidate_spec(binary_name@));
    }
    MaterializePlan {
        src: path_join(binary_dir, candidate.as_str()),
        dst: path_join(out_dir, "uefi.img"),
    }
}

/// Concatenate three string pieces.
fn concat3(a: &str, b: &str, c: &str) -> (r: String)
    ensures
        r@ == a@ + b@ + c@,
{
    let mut r = String::from_str(a);
    r.append(b);
    r.append(c);
    r
}

/// Where the relocation of one firmware variant stands. Each non-terminal
/// stage names the one filesystem operation the driver performs next.
pub enum VariantStage {
    /// Check whether the candidate artifact exists on disk.
    CheckSource,
    /// Rename the candidate artifact to its fixed destination.
    MoveToOutput,
    /// Canonicalize the destination to obtain the confirmed path.
    Canonicalize,
    /// Terminal: the variant's confirmed path, or nothing if the variant
    /// was not produced.
    Done { path: Option<String> },
    /// Terminal: relocation failed.
    Failed { error: PipelineError },
}

/// The mathematical value of a `VariantStage`.
pub enum VariantStageModel {
    CheckSource,
    MoveToOutput,
    Canonicalize,
    Done { path: Option<Seq<char>> },
    Failed { error: PipelineError },
}

impl View for VariantStage {
    type V = VariantStageModel;

    open spec fn view(&self) -> VariantStageModel {
        match self {
            VariantStage::CheckSource => VariantStageModel::CheckSource,
            VariantStage::MoveToOutput => VariantStageModel::MoveToOutput,
            VariantStage::Canonicalize => VariantStageModel::Canonicalize,
            VariantStage::Done { path } => VariantStageModel::Done { path: path.deep_view() },
            VariantStage::Failed { error } => VariantStageModel::Failed { error: *error },
        }
    }
}

/// The outcome of one filesystem operation the driver performed.
pub enum VariantEvent {
    /// Whether the candidate artifact exists.
    SourceChecked { exists: bool },
    /// Whether the rename succeeded.
    MoveAttempted { ok: bool },
    /// The canonicalized destination, or nothing if canonicalization failed.
    Canonicalized { path: Option<String> },
}

/// The mathematical value of a `VariantEvent`.
pub enum VariantEventModel {
    SourceChecked { exists: bool },
    MoveAttempted { ok: bool },
    Canonicalized { path: Option<Seq<char>> },
}

impl View for VariantEvent {
    type V = VariantEventModel;

    open spec fn view(&self) -> VariantEventModel {
        match self {
            VariantEvent::SourceChecked { exists } => VariantEventModel::SourceChecked {
                exists: *exists,
            },
            VariantEvent::MoveAttempted { ok } => VariantEventModel::MoveAttempted { ok: *ok },
            VariantEvent::Canonicalized { path } => VariantEventModel::Canonicalized {
                path: path.deep_view(),
            },
        }
    }
}

/// The full transition table of the per-variant relocation machine. An
/// absent artifact completes with an empty slot; a failed rename is a
/// terminal `Move` error; a destination that cannot be canonicalized after
/// a successful rename is a terminal `FindMoved` error. An event that does
/// not belong to the stage changes nothing.
pub open spec fn variant_step_spec(
    stage: VariantStageModel,
    event: VariantEventModel,
) -> VariantStageModel {
    match (stage, event) {
        (VariantStageModel::CheckSource, VariantEventModel::SourceChecked { exists }) => if exists {
            VariantStageModel::MoveToOutput
        } else {
            VariantStageModel::Done { path: None }
        },
        (VariantStageModel::MoveToOutput, VariantEventModel::MoveAttempted { ok }) => if ok {
            VariantStageModel::Canonicalize
        } else {
            VariantStageModel::Failed { error: PipelineError::Move }
        },
        (VariantStageModel::Canonicalize, VariantEventModel::Canonicalized { path }) => match path {
            Some(p) => VariantStageModel::Done { path: Some(p) },
            None => VariantStageModel::Failed { error: PipelineError::FindMoved },
        },
        (s, _) => s,
    }
}

/// Advance the relocation of one firmware variant by one driver outcome.
pub fn variant_step(stage: VariantStage, event: VariantEvent) -> (next: VariantStage)
    ensures
        next@ == variant_step_spec(stage@, event@),
{
    match (stage, event) {
        (VariantStage::CheckSource, VariantEvent::SourceChecked { exists }) => {
            if exists {
                VariantStage::MoveToOutput
            } else {
                VariantStage::Done { path: None }
            }
        },
        (VariantStage::MoveToOutput, VariantEvent::MoveAttempted { ok }) => {
            if ok {
                VariantStage::Canonicalize
            } else {
                VariantStage::Failed { error: PipelineError::Move }
            }
        },
        (VariantStage::Canonicalize, VariantEvent::Canonicalized { path }) => {
            match path {
                Some(p) => VariantStage::Done { path: Some(p) },
                None => VariantStage::Failed { error: PipelineError::FindMoved },
            }
        },
        (s, _) => s,
    }
}

/// Missing-variant policy: a requested variant whose artifact does not
/// exist after the build yields an empty slot, never an error.
pub proof fn lemma_missing_variant_is_not_an_error(stage: VariantStageModel)
    requires
        stage is CheckSource,
    ensures
        variant_step_spec(stage, VariantEventModel::SourceChecked { exists: false })
            == (VariantStageModel::Done { path: None }),
        !(variant_step_spec(stage, VariantEventModel::SourceChecked { exists: false }) is Failed),
{
}

} // verus!
