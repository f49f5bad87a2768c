use a121_stubgen::bindings::{
    add_headers_to_bindings, add_log_wrapper, clang_arguments, find_arm_include_paths,
    generate_bindings, get_riscv_sysroot, header_is_selected, search_list, target_arguments,
    target_family, usual_arm_include_paths, with_newlib_nano, TargetFamily, Toolchain,
};
use a121_stubgen::error::BuildError;
use a121_stubgen::groups::Capabilities;

fn strings(items: &[&str]) -> Vec<String> {
    items.iter().map(|s| s.to_string()).collect()
}

#[test]
fn target_family_is_read_from_the_triple() {
    assert_eq!(target_family("thumbv7em-none-eabihf"), TargetFamily::Arm);
    assert_eq!(target_family("armv7-unknown-linux-gnueabihf"), TargetFamily::Arm);
    assert_eq!(target_family("riscv32imac-esp-espidf"), TargetFamily::RiscV);
    assert_eq!(target_family("riscv32imc-esp-espidf"), TargetFamily::RiscV);
    assert_eq!(target_family("riscv32imc-unknown-none-elf"), TargetFamily::Other);
    assert_eq!(target_family("x86_64-unknown-linux-gnu"), TargetFamily::Other);
    assert_eq!(target_family(""), TargetFamily::Other);
}

#[test]
fn bindings_need_the_headers() {
    assert_eq!(
        generate_bindings("/rss/include", false, "thumbv7em-none-eabihf"),
        Err(BuildError::HeadersNotFound("/rss/include".to_string()))
    );
    assert_eq!(generate_bindings("/rss/include", true, "thumbv7em-none-eabihf"), Ok(TargetFamily::Arm));
    assert_eq!(generate_bindings("/rss/include", true, ""), Ok(TargetFamily::Other));
}

#[test]
fn arm_arguments_name_each_system_directory() {
    let toolchain = Toolchain::Arm { include_paths: strings(&["/a/include", "/b/include"]) };
    assert_eq!(
        clang_arguments(&toolchain, "/rss/include"),
        vec![
            "--target=thumbv7em-none-eabihf",
            "-mthumb",
            "-mcpu=cortex-m4",
            "-mfloat-abi=hard",
            "-mfpu=fpv4-sp-d16",
            "-D__GNUC__",
            "-D__STDC__=1",
            "-D__ARM_ARCH_7EM__=1",
            "-isystem/a/include",
            "-isystem/b/include",
            "-I/rss/include",
        ]
    );
}

#[test]
fn riscv_arguments_follow_the_system_root() {
    let with_libgcc = Toolchain::RiscV { sysroot: "/sys".to_string(), libgcc_dir: Some("/gcc".to_string()) };
    assert_eq!(
        clang_arguments(&with_libgcc, "/h"),
        vec![
            "--target=riscv32",
            "--sysroot=/sys",
            "-I/sys/include",
            "-I/sys/riscv32-esp-elf/include",
            "-I/gcc/include",
            "-I/gcc/include-fixed",
            "-I/h",
        ]
    );
    let without = Toolchain::RiscV { sysroot: "/sys".to_string(), libgcc_dir: None };
    assert_eq!(
        target_arguments(&without),
        vec!["--target=riscv32", "--sysroot=/sys", "-I/sys/include", "-I/sys/riscv32-esp-elf/include"]
    );
}

#[test]
fn host_arguments_are_the_headers_alone() {
    assert_eq!(clang_arguments(&Toolchain::Host, "/h"), vec!["-I/h"]);
}

#[test]
fn detector_headers_need_their_capability() {
    let none = Capabilities { distance: false, presence: false };
    let distance = Capabilities { distance: true, presence: false };
    assert!(header_is_selected("acc_config.h", none));
    assert!(!header_is_selected("acc_detector_distance.h", none));
    assert!(header_is_selected("acc_detector_distance.h", distance));
    assert!(!header_is_selected("acc_detector_presence.h", distance));
    assert!(header_is_selected("distance_presence.h", distance));
    assert!(!header_is_selected("distance_presence.h", none));
}

#[test]
fn selected_headers_keep_their_order() {
    let files = strings(&[
        "acc_detector_presence.h",
        "acc_sensor.h",
        "acc_detector_distance.h",
        "acc_config.h",
    ]);
    let presence = Capabilities { distance: false, presence: true };
    assert_eq!(
        add_headers_to_bindings(&files, presence),
        vec!["acc_detector_presence.h", "acc_sensor.h", "acc_config.h"]
    );
    assert_eq!(add_headers_to_bindings(&[], presence), Vec::<String>::new());
}

#[test]
fn search_list_is_read_between_its_markers() {
    let report = "ignoring nonexistent directory \"/x\"\n \
                  /before/the/list\n\
                  #include \"...\" search starts here:\n\
                  #include <...> search starts here:\n \
                  /usr/lib/gcc/arm-none-eabi/10.3.1/include\n \
                  /usr/lib/arm-none-eabi/include  \r\n\
                  not indented\n\
                  End of search list.\n \
                  /after/the/list\n";
    assert_eq!(
        search_list(report),
        vec!["/usr/lib/gcc/arm-none-eabi/10.3.1/include", "/usr/lib/arm-none-eabi/include"]
    );
}

#[test]
fn search_list_without_markers_is_empty() {
    assert_eq!(search_list(" /some/path\n /other\n"), Vec::<String>::new());
    assert_eq!(search_list(""), Vec::<String>::new());
    assert_eq!(search_list("#include <...> search starts here:\n /only\n"), vec!["/only"]);
}

#[test]
fn listed_directories_are_preferred() {
    assert_eq!(
        find_arm_include_paths(strings(&["/listed"]), strings(&["/usual"]), Some("/beside".to_string())),
        Ok(strings(&["/listed"]))
    );
    assert_eq!(
        find_arm_include_paths(Vec::new(), strings(&["/usual", "/other"]), Some("/beside".to_string())),
        Ok(strings(&["/usual", "/other"]))
    );
    assert_eq!(
        find_arm_include_paths(Vec::new(), Vec::new(), Some("/beside".to_string())),
        Ok(strings(&["/beside"]))
    );
}

#[test]
fn missing_arm_toolchain_is_reported() {
    assert_eq!(
        find_arm_include_paths(Vec::new(), Vec::new(), None),
        Err(BuildError::BindgenError(
            "Could not find ARM toolchain include paths. Please ensure arm-none-eabi-gcc is installed and in PATH."
                .to_string()
        ))
    );
}

#[test]
fn usual_directories_are_five() {
    assert_eq!(
        usual_arm_include_paths(),
        vec![
            "/usr/arm-none-eabi/include",
            "/usr/lib/arm-none-eabi/include",
            "/usr/local/arm-none-eabi/include",
            "/opt/arm-none-eabi/include",
            "/opt/gcc-arm-none-eabi/arm-none-eabi/include",
        ]
    );
}

#[test]
fn reduced_library_is_added_only_where_needed() {
    let paths = strings(&["/a"]);
    assert_eq!(with_newlib_nano(paths.clone(), false, Some("/nano".to_string())), strings(&["/a", "/nano"]));
    assert_eq!(with_newlib_nano(paths.clone(), true, Some("/nano".to_string())), strings(&["/a"]));
    assert_eq!(with_newlib_nano(paths.clone(), false, None), strings(&["/a"]));
}

#[test]
fn system_root_is_what_the_compiler_prints() {
    assert_eq!(get_riscv_sysroot("/opt/riscv/sysroot\n", Some("/bin/../riscv32-esp-elf".to_string())), "/opt/riscv/sysroot");
    assert_eq!(get_riscv_sysroot("", Some("/bin/../riscv32-esp-elf".to_string())), "/bin/../riscv32-esp-elf");
    assert_eq!(get_riscv_sysroot("", None), "");
    assert_eq!(get_riscv_sysroot(" \n", Some("/x".to_string())), "");
}

#[test]
fn logging_shim_is_built_for_the_target() {
    assert_eq!(
        add_log_wrapper(TargetFamily::Arm),
        Some((
            "arm-none-eabi-gcc".to_string(),
            strings(&["-mcpu=cortex-m4", "-mthumb", "-mfloat-abi=hard", "-mfpu=fpv4-sp-d16"])
        ))
    );
    assert_eq!(add_log_wrapper(TargetFamily::RiscV), Some(("riscv32-esp-elf-gcc".to_string(), Vec::new())));
    assert_eq!(add_log_wrapper(TargetFamily::Other), None);
}
