//! The emulator supervisor: one bounded or unbounded emulator run.
//!
//! The supervisor spawns the hardware emulator pointed at a disk image and
//! collects an exit code. Without a timeout it blocks until the child
//! exits. With a timeout it blocks up to the window; a child still alive
//! after it is forcibly killed and then reaped by a final blocking wait —
//! killing alone does not collect the exit status, so the reap is
//! mandatory on that path. The emulated environment's only channel back is
//! its exit code: the sentinel value `5` means "tests passed" and is
//! remapped to `0`; any other code passes through unchanged; a child that
//! died without an exit code (for example by signal, or after the forced
//! kill) counts as failure, collapsed to `1`. The unverified driver
//! performs each spawn, wait, kill and reap, and feeds the outcome back
//! into `vm_step`; on the terminal stage it exits the whole process with
//! the reported code.

use vstd::prelude::*;

use crate::cmdline::emulator_argv;
use crate::cmdline::emulator_argv_spec;
use crate::cmdline::seq_views;

verus! {

/// The exit code the outer process reports for a raw child exit status.
pub open spec fn remap_spec(raw: Option<i32>) -> i32 {
    match raw {
        Some(code) => if code == 5 { 0 } else { code },
        None => 1,
    }
}

/// Remap a raw emulator exit status to the outer process's exit code.
pub fn remap_exit_code(raw: Option<i32>) -> (code: i32)
    ensures
        code == remap_spec(raw),
        raw == Some(5i32) ==> code == 0,
        forall|c: i32| raw == Some(c) && c != 5 ==> code == c,
        raw is None ==> code == 1,
{
    match raw {
        Some(code) => {
            if code == 5 {
                0
            } else {
                code
            }
        },
        None => 1,
    }
}

/// The fixed inputs of one emulator run.
pub struct VmConfig {
    /// Canonical path of the disk image to boot.
    pub image: String,
    /// Caller-supplied extra emulator arguments, split on space or pipe.
    pub extra_args: String,
    /// The wall-clock timeout in seconds, or none for an unbounded run.
    pub timeout: Option<u64>,
}

/// The mathematical value of a `VmConfig`.
pub struct VmConfigModel {
    pub image: Seq<char>,
    pub extra_args: Seq<char>,
    pub timeout: Option<u64>,
}

impl View for VmConfig {
    type V = VmConfigModel;

    open spec fn view(&self) -> VmConfigModel {
        VmConfigModel {
            image: self.image@,
            extra_args: self.extra_args@,
            timeout: self.timeout,
        }
    }
}

/// Where the emulator run stands. Each non-terminal stage names the one
/// process operation the driver performs next.
pub enum VmStage {
    /// Spawn the emulator with `argv`.
    SpawnEmulator { argv: Vec<String> },
    /// Block until the child exits.
    Wait,
    /// Block up to `timeout_secs` for the child to exit.
    WaitBounded { timeout_secs: u64 },
    /// The window elapsed: forcibly kill the child.
    KillChild,
    /// Reap the killed child with a final blocking wait.
    ReapChild,
    /// Terminal: exit the whole process with `code`.
    Exit { code: i32 },
    /// Terminal: spawning, waiting, killing or reaping itself failed;
    /// there is no recovery path, the driver aborts.
    Fatal,
}

/// The mathematical value of a `VmStage`.
pub enum VmStageModel {
    SpawnEmulator { argv: Seq<Seq<char>> },
    Wait,
    WaitBounded { timeout_secs: u64 },
    KillChild,
    ReapChild,
    Exit { code: i32 },
    Fatal,
}

impl View for VmStage {
    type V = VmStageModel;

    open spec fn view(&self) -> VmStageModel {
        match self {
            VmStage::SpawnEmulator { argv } => VmStageModel::SpawnEmulator {
                argv: seq_views(argv@),
            },
            VmStage::Wait => VmStageModel::Wait,
            VmStage::WaitBounded { timeout_secs } => VmStageModel::WaitBounded {
                timeout_secs: *timeout_secs,
            },
            VmStage::KillChild => VmStageModel::KillChild,
            VmStage::ReapChild => VmStageModel::ReapChild,
            VmStage::Exit { code } => VmStageModel::Exit { code: *code },
            VmStage::Fatal => VmStageModel::Fatal,
        }
    }
}

/// The outcome of one process operation the driver performed.
pub enum VmEvent {
    /// Whether the emulator process started.
    Spawned { ok: bool },
    /// A blocking wait — bounded, unbounded, or the post-kill reap —
    /// returned the child's exit status.
    ChildExited { code: Option<i32> },
    /// The bounded wait elapsed with the child still alive.
    WaitTimedOut,
    /// Waiting on the child itself failed.
    WaitFailed,
    /// Whether the forced kill succeeded.
    Killed { ok: bool },
}

/// The full transition table of the emulator supervisor. An exit code is
/// reported only once a wait has collected the child's status; a timeout
/// leads to a kill and then a mandatory reap. An event that does not
/// belong to the stage changes nothing.
pub open spec fn vm_step_model(
    cfg: VmConfigModel,
    stage: VmStageModel,
    event: VmEvent,
) -> VmStageModel {
    match (stage, event) {
        (VmStageModel::SpawnEmulator { .. }, VmEvent::Spawned { ok }) => {
            if !ok {
                VmStageModel::Fatal
            } else {
                match cfg.timeout {
                    Some(t) => VmStageModel::WaitBounded { timeout_secs: t },
                    None => VmStageModel::Wait,
                }
            }
        },
        (VmStageModel::Wait, VmEvent::ChildExited { code }) => VmStageModel::Exit {
            code: remap_spec(code),
        },
        (VmStageModel::Wait, VmEvent::WaitFailed) => VmStageModel::Fatal,
        (VmStageModel::WaitBounded { .. }, VmEvent::ChildExited { code }) => VmStageModel::Exit {
            code: remap_spec(code),
        },
        (VmStageModel::WaitBounded { .. }, VmEvent::WaitTimedOut) => VmStageModel::KillChild,
        (VmStageModel::WaitBounded { .. }, VmEvent::WaitFailed) => VmStageModel::Fatal,
        (VmStageModel::KillChild, VmEvent::Killed { ok }) => {
            if ok {
                VmStageModel::ReapChild
            } else {
                VmStageModel::Fatal
            }
        },
        (VmStageModel::ReapChild, VmEvent::ChildExited { code }) => VmStageModel::Exit {
            code: remap_spec(code),
        },
        (VmStageModel::ReapChild, VmEvent::WaitFailed) => VmStageModel::Fatal,
        (s, _) => s,
    }
}

/// The stage an emulator run starts in: spawning the emulator with the
/// drive argument for the disk image and the caller's extra arguments.
pub fn start_vm(cfg: &VmConfig) -> (s: VmStage)
    ensures
        s@ == (VmStageModel::SpawnEmulator {
            argv: emulator_argv_spec(cfg.image@, cfg.extra_args@),
        }),
{
    VmStage::SpawnEmulator { argv: emulator_argv(cfg.image.as_str(), cfg.extra_args.as_str()) }
}

/// Advance the emulator run by one driver outcome.
pub fn vm_step(cfg: &VmConfig, stage: VmStage, event: VmEvent) -> (next: VmStage)
    ensures
        next@ == vm_step_model(cfg@, stage@, event),
{
    match (stage, event) {
        (VmStage::SpawnEmulator { .. }, VmEvent::Spawned { ok }) => {
            if !ok {
                VmStage::Fatal
            } else {
                match cfg.timeout {
                    Some(t) => VmStage::WaitBounded { timeout_secs: t },
                    None => VmStage::Wait,
                }
            }
        },
        (VmStage::Wait, VmEvent::ChildExited { code }) => VmStage::Exit {
            code: remap_exit_code(code),
        },
        (VmStage::Wait, VmEvent::WaitFailed) => VmStage::Fatal,
        (VmStage::WaitBounded { .. }, VmEvent::ChildExited { code }) => VmStage::Exit {
            code: remap_exit_code(code),
        },
        (VmStage::WaitBounded { .. }, VmEvent::WaitTimedOut) => VmStage::KillChild,
        (VmStage::WaitBounded { .. }, VmEvent::WaitFailed) => VmStage::Fatal,
        (VmStage::KillChild, VmEvent::Killed { ok }) => {
            if ok {
                VmStage::ReapChild
            } else {
                VmStage::Fatal
            }
        },
        (VmStage::ReapChild, VmEvent::ChildExited { code }) => VmStage::Exit {
            code: remap_exit_code(code),
        },
        (VmStage::ReapChild, VmEvent::WaitFailed) => VmStage::Fatal,
        (s, _) => s,
    }
}

/// The supervisor never abandons a live child: it reports an exit code
/// only on an event that carries the child's collected exit status, a
/// timeout is followed by a forced kill, and a successful kill by a
/// mandatory reap.
pub proof fn lemma_exit_only_after_reap(cfg: VmConfigModel, stage: VmStageModel, event: VmEvent)
    ensures
        vm_step_model(cfg, stage, event) is Exit ==> (stage is Exit || event is ChildExited),
        stage is WaitBounded && event is WaitTimedOut ==> vm_step_model(cfg, stage, event)
            is KillChild,
        stage is KillChild && event == (VmEvent::Killed { ok: true }) ==> vm_step_model(
            cfg,
            stage,
            event,
        ) is ReapChild,
{
}

/// A terminal supervisor stage is stable: once the run has an exit code,
/// or has failed fatally, no later event alters it.
pub proof fn lemma_vm_terminal_stages_are_stable(
    cfg: VmConfigModel,
    stage: VmStageModel,
    event: VmEvent,
)
    requires
        stage is Exit || stage is Fatal,
    ensures
        vm_step_model(cfg, stage, event) == stage,
{
}

/// The sentinel protocol at the terminal transition: a collected code `5`
/// exits with `0`, any other collected code passes through, and a child
/// that died without a code — the killed-on-timeout child among them —
/// exits with `1`.
pub proof fn lemma_exit_code_protocol(cfg: VmConfigModel, stage: VmStageModel, code: Option<i32>)
    requires
        stage is Wait || stage is WaitBounded || stage is ReapChild,
    ensures
        vm_step_model(cfg, stage, VmEvent::ChildExited { code }) == (VmStageModel::Exit {
            code: remap_spec(code),
        }),
        code == Some(5i32) ==> vm_step_model(cfg, stage, VmEvent::ChildExited { code })
            == (VmStageModel::Exit { code: 0i32 }),
        code is None ==> vm_step_model(cfg, stage, VmEvent::ChildExited { code })
            == (VmStageModel::Exit { code: 1i32 }),
{
}

} // verus!
