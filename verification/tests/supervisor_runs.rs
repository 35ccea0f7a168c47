use bootimage_pipeline::remap_exit_code;
use bootimage_pipeline::supervisor::VmConfig;
use bootimage_pipeline::supervisor::VmEvent;
use bootimage_pipeline::supervisor::VmStage;
use bootimage_pipeline::supervisor::start_vm;
use bootimage_pipeline::supervisor::vm_step;

fn vm_config(timeout: Option<u64>) -> VmConfig {
    VmConfig {
        image: "/out/bios.img".to_string(),
        extra_args: "-serial stdio".to_string(),
        timeout,
    }
}

#[test]
fn the_sentinel_code_five_remaps_to_success() {
    assert_eq!(remap_exit_code(Some(5)), 0);
}

#[test]
fn other_codes_pass_through_unchanged() {
    assert_eq!(remap_exit_code(Some(3)), 3);
    assert_eq!(remap_exit_code(Some(0)), 0);
    assert_eq!(remap_exit_code(Some(-7)), -7);
}

#[test]
fn a_missing_exit_code_collapses_to_failure() {
    assert_eq!(remap_exit_code(None), 1);
}

#[test]
fn an_unbounded_run_waits_and_exits_with_the_remapped_code() {
    let cfg = vm_config(None);
    let st = start_vm(&cfg);
    match &st {
        VmStage::SpawnEmulator { argv } => {
            assert_eq!(argv, &vec![
                "-drive",
                "format=raw,file=/out/bios.img",
                "-serial",
                "stdio",
            ]);
        },
        _ => panic!("the run did not start with a spawn"),
    }
    let st = vm_step(&cfg, st, VmEvent::Spawned { ok: true });
    assert!(matches!(st, VmStage::Wait));
    let st = vm_step(&cfg, st, VmEvent::ChildExited { code: Some(5) });
    assert!(matches!(st, VmStage::Exit { code: 0 }));
}

#[test]
fn a_bounded_run_kills_and_reaps_on_timeout() {
    let cfg = vm_config(Some(30));
    let st = vm_step(&cfg, start_vm(&cfg), VmEvent::Spawned { ok: true });
    assert!(matches!(st, VmStage::WaitBounded { timeout_secs: 30 }));
    let st = vm_step(&cfg, st, VmEvent::WaitTimedOut);
    assert!(matches!(st, VmStage::KillChild));
    let st = vm_step(&cfg, st, VmEvent::Killed { ok: true });
    assert!(matches!(st, VmStage::ReapChild));
    let st = vm_step(&cfg, st, VmEvent::ChildExited { code: None });
    assert!(matches!(st, VmStage::Exit { code: 1 }));
}

#[test]
fn a_bounded_run_takes_the_code_of_a_child_that_exits_in_time() {
    let cfg = vm_config(Some(30));
    let st = vm_step(&cfg, start_vm(&cfg), VmEvent::Spawned { ok: true });
    let st = vm_step(&cfg, st, VmEvent::ChildExited { code: Some(3) });
    assert!(matches!(st, VmStage::Exit { code: 3 }));
}

#[test]
fn a_failed_spawn_is_fatal() {
    let cfg = vm_config(None);
    let st = vm_step(&cfg, start_vm(&cfg), VmEvent::Spawned { ok: false });
    assert!(matches!(st, VmStage::Fatal));
}

#[test]
fn a_failed_kill_is_fatal() {
    let cfg = vm_config(Some(1));
    let st = vm_step(&cfg, VmStage::KillChild, VmEvent::Killed { ok: false });
    assert!(matches!(st, VmStage::Fatal));
}
