use bootimage_pipeline::cmdline::builder_argv;
use bootimage_pipeline::cmdline::emulator_argv;
use bootimage_pipeline::cmdline::emulator_program;
use bootimage_pipeline::cmdline::split_build_command;
use bootimage_pipeline::cmdline::split_emulator_args;
use bootimage_pipeline::errors::PipelineError;
use bootimage_pipeline::paths::path_file_name;
use bootimage_pipeline::paths::path_join;
use bootimage_pipeline::paths::path_parent;
use bootimage_pipeline::resolver::derive_binary_path;
use bootimage_pipeline::resolver::derive_target_dir;

#[test]
fn join_appends_one_component() {
    assert_eq!(path_join("/proj", "target"), "/proj/target");
    assert_eq!(path_join("", "target"), "/target");
}

#[test]
fn parent_strips_the_last_component() {
    assert_eq!(path_parent("/proj/Cargo.toml"), Some("/proj".to_string()));
    assert_eq!(path_parent("/a/b/c"), Some("/a/b".to_string()));
    assert_eq!(path_parent("/a"), Some("".to_string()));
    assert_eq!(path_parent("plain"), None);
    assert_eq!(path_parent(""), None);
}

#[test]
fn file_name_is_the_part_after_the_last_separator() {
    assert_eq!(
        path_file_name("/proj/target/t/release/kernel.elf"),
        Some("kernel.elf".to_string())
    );
    assert_eq!(path_file_name("plain"), Some("plain".to_string()));
    assert_eq!(path_file_name("/a/b/"), None);
    assert_eq!(path_file_name(""), None);
}

#[test]
fn build_command_splits_on_spaces_keeping_empty_segments() {
    assert_eq!(split_build_command("cargo build --release"), vec![
        "cargo", "build", "--release"
    ]);
    assert_eq!(split_build_command("a  b"), vec!["a", "", "b"]);
    assert_eq!(split_build_command(""), vec![""]);
    assert_eq!(split_build_command("one"), vec!["one"]);
}

#[test]
fn emulator_args_split_on_space_and_pipe() {
    assert_eq!(split_emulator_args("-serial stdio|-display none"), vec![
        "-serial", "stdio", "-display", "none"
    ]);
    assert_eq!(split_emulator_args("x|y z"), vec!["x", "y", "z"]);
}

#[test]
fn builder_argv_lists_the_builder_invocation() {
    let argv = builder_argv(
        "/proj/Cargo.toml",
        "/proj/target/t/release/kernel.elf",
        "/proj/target",
        "/proj/target/t/release",
        true,
    );
    assert_eq!(argv, vec![
        "builder",
        "--quiet",
        "--kernel-manifest",
        "/proj/Cargo.toml",
        "--kernel-binary",
        "/proj/target/t/release/kernel.elf",
        "--target-dir",
        "/proj/target",
        "--out-dir",
        "/proj/target/t/release",
    ]);
}

#[test]
fn builder_argv_overrides_firmware_when_uefi_is_off() {
    let argv = builder_argv("/m", "/b", "/t", "/o", false);
    assert_eq!(argv, vec![
        "builder",
        "--quiet",
        "--kernel-manifest",
        "/m",
        "--kernel-binary",
        "/b",
        "--target-dir",
        "/t",
        "--out-dir",
        "/o",
        "--firmware",
        "bios",
    ]);
}

#[test]
fn emulator_argv_points_a_raw_drive_at_the_image() {
    let argv = emulator_argv("/out/bios.img", "-serial stdio");
    assert_eq!(argv, vec![
        "-drive",
        "format=raw,file=/out/bios.img",
        "-serial",
        "stdio",
    ]);
    assert_eq!(emulator_program(), "qemu-system-x86_64");
}

#[test]
fn target_dir_is_derived_from_the_descriptor_root() {
    let dir = derive_target_dir("/proj/Cargo.toml", "x86_64-kernel");
    assert_eq!(dir, Ok("/proj/target/x86_64-kernel/release".to_string()));
}

#[test]
fn target_dir_fails_for_a_degenerate_descriptor() {
    assert_eq!(
        derive_target_dir("degenerate", "t"),
        Err(PipelineError::RootNotFound)
    );
}

#[test]
fn binary_path_is_derived_from_the_package_name() {
    let path = derive_binary_path("/proj/target/t/release", "kernel");
    assert_eq!(path, "/proj/target/t/release/kernel.elf");
}

#[test]
fn path_derivation_is_idempotent() {
    let d1 = derive_target_dir("/proj/Cargo.toml", "triple");
    let d2 = derive_target_dir("/proj/Cargo.toml", "triple");
    assert_eq!(d1, d2);
    let b1 = derive_binary_path("/proj/target/triple/release", "kernel");
    let b2 = derive_binary_path("/proj/target/triple/release", "kernel");
    assert_eq!(b1, b2);
}
