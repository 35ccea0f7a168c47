use bootimage_pipeline::diskimage::DiskEvent;
use bootimage_pipeline::diskimage::DiskImageConfig;
use bootimage_pipeline::diskimage::DiskStage;
use bootimage_pipeline::diskimage::disk_step;
use bootimage_pipeline::diskimage::start_disk_image;
use bootimage_pipeline::errors::PipelineError;
use bootimage_pipeline::materialize::DiskImageSet;
use bootimage_pipeline::materialize::MaterializePlan;
use bootimage_pipeline::materialize::VariantEvent;
use bootimage_pipeline::materialize::VariantStage;
use bootimage_pipeline::materialize::bios_plan;
use bootimage_pipeline::materialize::uefi_plan;
use bootimage_pipeline::materialize::variant_step;
use bootimage_pipeline::orchestrator::BuildConfig;
use bootimage_pipeline::orchestrator::BuildEvent;
use bootimage_pipeline::orchestrator::BuildStage;
use bootimage_pipeline::orchestrator::build_step;
use bootimage_pipeline::orchestrator::missing_requested_variant;
use bootimage_pipeline::orchestrator::start_build;

fn build_config(create_out: bool) -> BuildConfig {
    BuildConfig {
        out_dir: "/out".to_string(),
        create_out,
        build_cmd: "build --release".to_string(),
        target_triple: "x86_64-kernel".to_string(),
        bios: true,
        uefi: true,
    }
}

fn disk_config() -> DiskImageConfig {
    DiskImageConfig {
        kernel_binary: "/proj/target/t/release/kernel.elf".to_string(),
        uefi: false,
        out_dir: "/out".to_string(),
    }
}

#[test]
fn relocation_plans_use_conventional_names_and_fixed_destinations() {
    let MaterializePlan { src, dst } = bios_plan("/proj/target/t/release", "kernel.elf", "/out");
    assert_eq!(src, "/proj/target/t/release/bootimage-bios-kernel.elf.img");
    assert_eq!(dst, "/out/bios.img");
    let MaterializePlan { src, dst } = uefi_plan("/proj/target/t/release", "kernel.elf", "/out");
    assert_eq!(src, "/proj/target/t/release/bootimage-uefi-kernel.elf.img");
    assert_eq!(dst, "/out/uefi.img");
}

#[test]
fn a_present_artifact_is_moved_then_canonicalized() {
    let st = VariantStage::CheckSource;
    let st = variant_step(st, VariantEvent::SourceChecked { exists: true });
    assert!(matches!(st, VariantStage::MoveToOutput));
    let st = variant_step(st, VariantEvent::MoveAttempted { ok: true });
    assert!(matches!(st, VariantStage::Canonicalize));
    let st = variant_step(
        st,
        VariantEvent::Canonicalized { path: Some("/out/bios.img".to_string()) },
    );
    match st {
        VariantStage::Done { path } => assert_eq!(path, Some("/out/bios.img".to_string())),
        _ => panic!("relocation did not complete"),
    }
}

#[test]
fn an_absent_artifact_yields_an_empty_slot_not_an_error() {
    let st = variant_step(
        VariantStage::CheckSource,
        VariantEvent::SourceChecked { exists: false },
    );
    match st {
        VariantStage::Done { path } => assert_eq!(path, None),
        _ => panic!("an absent artifact must complete with an empty slot"),
    }
}

#[test]
fn a_failed_move_is_terminal() {
    let st = variant_step(
        VariantStage::MoveToOutput,
        VariantEvent::MoveAttempted { ok: false },
    );
    assert!(matches!(st, VariantStage::Failed { error: PipelineError::Move }));
}

#[test]
fn a_lost_destination_is_terminal() {
    let st = variant_step(VariantStage::Canonicalize, VariantEvent::Canonicalized { path: None });
    assert!(matches!(st, VariantStage::Failed { error: PipelineError::FindMoved }));
}

#[test]
fn the_disk_image_machine_assembles_the_builder_invocation() {
    let cfg = disk_config();
    let st = start_disk_image();
    let st = disk_step(
        &cfg,
        st,
        DiskEvent::BootloaderLocated { manifest: Some("/deps/bootloader/Cargo.toml".to_string()) },
    );
    assert!(matches!(st, DiskStage::LocateKernelManifest { .. }));
    let st = disk_step(
        &cfg,
        st,
        DiskEvent::KernelManifestLocated { manifest: Some("/proj/Cargo.toml".to_string()) },
    );
    match &st {
        DiskStage::InvokeBuilder { cwd, argv } => {
            assert_eq!(cwd, "/deps/bootloader");
            assert_eq!(argv, &vec![
                "builder",
                "--quiet",
                "--kernel-manifest",
                "/proj/Cargo.toml",
                "--kernel-binary",
                "/proj/target/t/release/kernel.elf",
                "--target-dir",
                "/proj/target",
                "--out-dir",
                "/proj/target/t/release",
                "--firmware",
                "bios",
            ]);
        },
        _ => panic!("builder invocation was not assembled"),
    }
    let st = disk_step(&cfg, st, DiskEvent::BuilderExited { success: true });
    match &st {
        DiskStage::MaterializeBios { binary_dir, binary_name } => {
            assert_eq!(binary_dir, "/proj/target/t/release");
            assert_eq!(binary_name, "kernel.elf");
        },
        _ => panic!("relocation did not start"),
    }
    let st = disk_step(
        &cfg,
        st,
        DiskEvent::VariantFinished { outcome: Ok(Some("/out/bios.img".to_string())) },
    );
    assert!(matches!(st, DiskStage::MaterializeUefi { .. }));
    let st = disk_step(&cfg, st, DiskEvent::VariantFinished { outcome: Ok(None) });
    match st {
        DiskStage::Done { images } => {
            assert_eq!(images.bios, Some("/out/bios.img".to_string()));
            assert_eq!(images.uefi, None);
        },
        _ => panic!("the build did not complete"),
    }
}

#[test]
fn a_missing_bootloader_dependency_is_terminal() {
    let cfg = disk_config();
    let st = disk_step(&cfg, start_disk_image(), DiskEvent::BootloaderLocated { manifest: None });
    assert!(matches!(st, DiskStage::Failed { error: PipelineError::BootloaderNotFound }));
}

#[test]
fn a_failed_builder_run_is_terminal() {
    let cfg = disk_config();
    let st = DiskStage::InvokeBuilder { cwd: "/deps/bootloader".to_string(), argv: vec![] };
    let st = disk_step(&cfg, st, DiskEvent::BuilderExited { success: false });
    assert!(matches!(st, DiskStage::Failed { error: PipelineError::BuildFailed }));
}

#[test]
fn a_missing_output_dir_without_auto_creation_fails_before_any_spawn() {
    let cfg = build_config(false);
    let st = build_step(&cfg, start_build(), BuildEvent::OutputDirChecked { exists: false });
    assert!(matches!(st, BuildStage::Failed { error: PipelineError::OutNotExist }));
    let st = build_step(&cfg, st, BuildEvent::CompilerExited { success: true });
    assert!(matches!(st, BuildStage::Failed { error: PipelineError::OutNotExist }));
}

#[test]
fn a_missing_output_dir_is_created_when_allowed() {
    let cfg = build_config(true);
    let st = build_step(&cfg, start_build(), BuildEvent::OutputDirChecked { exists: false });
    assert!(matches!(st, BuildStage::CreateOutputDir));
    let st = build_step(&cfg, st, BuildEvent::OutputDirCreated { ok: true });
    match st {
        BuildStage::CompileKernel { argv } => assert_eq!(argv, vec!["build", "--release"]),
        _ => panic!("compilation did not start"),
    }
}

#[test]
fn the_build_pipeline_runs_stage_by_stage_to_the_report() {
    let cfg = build_config(false);
    let st = build_step(&cfg, start_build(), BuildEvent::OutputDirChecked { exists: true });
    match &st {
        BuildStage::CompileKernel { argv } => assert_eq!(argv, &vec!["build", "--release"]),
        _ => panic!("compilation did not start"),
    }
    let st = build_step(&cfg, st, BuildEvent::CompilerExited { success: true });
    assert!(matches!(st, BuildStage::ResolveDescriptor));
    let st = build_step(
        &cfg,
        st,
        BuildEvent::DescriptorLocated { descriptor: Some("/proj/Cargo.toml".to_string()) },
    );
    assert!(matches!(st, BuildStage::ReadPackageName { .. }));
    let st = build_step(
        &cfg,
        st,
        BuildEvent::PackageNameRead { name: Some("kernel".to_string()) },
    );
    match &st {
        BuildStage::CanonicalizeBinary { binary } => {
            assert_eq!(binary, "/proj/target/x86_64-kernel/release/kernel.elf");
        },
        _ => panic!("the binary path was not derived"),
    }
    let st = build_step(
        &cfg,
        st,
        BuildEvent::BinaryCanonicalized {
            binary: Some("/proj/target/x86_64-kernel/release/kernel.elf".to_string()),
        },
    );
    assert!(matches!(st, BuildStage::CreateDiskImage { .. }));
    let st = build_step(
        &cfg,
        st,
        BuildEvent::DiskImageFinished {
            outcome: Ok(DiskImageSet {
                bios: Some("/out/bios.img".to_string()),
                uefi: Some("/out/uefi.img".to_string()),
            }),
        },
    );
    match st {
        BuildStage::Report { images } => {
            assert_eq!(images.bios, Some("/out/bios.img".to_string()));
            assert_eq!(images.uefi, Some("/out/uefi.img".to_string()));
        },
        _ => panic!("the pipeline did not report"),
    }
}

#[test]
fn a_descriptor_without_a_package_identity_is_terminal() {
    let cfg = build_config(false);
    let st = BuildStage::ReadPackageName { descriptor: "/proj/Cargo.toml".to_string() };
    let st = build_step(&cfg, st, BuildEvent::PackageNameRead { name: None });
    assert!(matches!(st, BuildStage::Failed { error: PipelineError::KernelManifest }));
}

#[test]
fn a_failed_compile_is_terminal() {
    let cfg = build_config(false);
    let st = BuildStage::CompileKernel { argv: vec![] };
    let st = build_step(&cfg, st, BuildEvent::CompilerExited { success: false });
    assert!(matches!(st, BuildStage::Failed { error: PipelineError::BuildFailed }));
}

#[test]
fn a_missing_descriptor_is_terminal() {
    let cfg = build_config(false);
    let st = build_step(&cfg, BuildStage::ResolveDescriptor, BuildEvent::DescriptorLocated {
        descriptor: None,
    });
    assert!(matches!(st, BuildStage::Failed { error: PipelineError::ManifestNotFound }));
}

#[test]
fn a_failed_directory_creation_is_terminal() {
    let cfg = build_config(true);
    let st = build_step(&cfg, BuildStage::CreateOutputDir, BuildEvent::OutputDirCreated {
        ok: false,
    });
    assert!(matches!(st, BuildStage::Failed { error: PipelineError::CreateDirFailed }));
}

#[test]
fn an_unresolvable_binary_path_is_terminal() {
    let cfg = build_config(false);
    let st = BuildStage::CanonicalizeBinary { binary: "/proj/target/t/release/kernel.elf".to_string() };
    let st = build_step(&cfg, st, BuildEvent::BinaryCanonicalized { binary: None });
    assert!(matches!(st, BuildStage::Failed { error: PipelineError::BinaryNotFound }));
}

#[test]
fn an_event_that_does_not_belong_to_the_stage_changes_nothing() {
    let cfg = build_config(false);
    let st = build_step(&cfg, BuildStage::ResolveDescriptor, BuildEvent::CompilerExited {
        success: false,
    });
    assert!(matches!(st, BuildStage::ResolveDescriptor));
}

#[test]
fn missing_requested_variants_are_reported_explicitly() {
    let cfg = build_config(false);
    let both = DiskImageSet {
        bios: Some("/out/bios.img".to_string()),
        uefi: Some("/out/uefi.img".to_string()),
    };
    let bios_only = DiskImageSet { bios: Some("/out/bios.img".to_string()), uefi: None };
    assert!(!missing_requested_variant(&cfg, &both));
    assert!(missing_requested_variant(&cfg, &bios_only));
}

#[test]
fn error_messages_name_the_failure() {
    assert_eq!(PipelineError::OutNotExist.message(), "output directory does not exist");
    assert_eq!(
        PipelineError::BuildFailed.message(),
        "external build command failed"
    );
}
