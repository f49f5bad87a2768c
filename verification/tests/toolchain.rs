use a121_stubgen::error::{BuildError, ToolFailure};
use a121_stubgen::groups::{enabled_groups, Activation, Capabilities, GroupId, StubArtifact};
use a121_stubgen::generator::StubGenerator;
use a121_stubgen::stub::{
    archive_invocation, archive_result, compile_invocation, generate_stub_libraries,
    generate_stubs, probe_invocation, source_written, validate_invocation,
    validate_stub_libraries, validate_stub_library, validator_available, BuildJob,
    ToolInvocation, ToolOutcome,
};

const NONE: Capabilities = Capabilities { distance: false, presence: false };
const ALL: Capabilities = Capabilities { distance: true, presence: true };

fn names(artifacts: &[StubArtifact]) -> Vec<(String, String, String)> {
    artifacts.iter().map(|a| (a.source.clone(), a.object.clone(), a.archive.clone())).collect()
}

fn triple(source: &str, object: &str, archive: &str) -> (String, String, String) {
    (source.to_string(), object.to_string(), archive.to_string())
}

fn job() -> BuildJob {
    BuildJob {
        artifact: GroupId::Base.artifact(),
        source_path: "/out/acconeer_a121_stubs.c".to_string(),
        object_path: "/out/acconeer_a121_stubs.o".to_string(),
        archive_path: "/out/libacconeer_a121.a".to_string(),
        include_dir: "/rss/include".to_string(),
    }
}

fn exited(status: Option<i32>, diagnostics: &str) -> ToolOutcome {
    ToolOutcome::Exited { status, diagnostics: diagnostics.to_string() }
}

#[test]
fn base_group_is_always_built() {
    assert_eq!(
        names(&generate_stub_libraries(NONE)),
        vec![triple("acconeer_a121_stubs.c", "acconeer_a121_stubs.o", "libacconeer_a121.a")]
    );
    assert_eq!(enabled_groups(NONE), vec![GroupId::Base]);
}

#[test]
fn optional_groups_follow_the_base_group_in_order() {
    assert_eq!(
        names(&generate_stub_libraries(ALL)),
        vec![
            triple("acconeer_a121_stubs.c", "acconeer_a121_stubs.o", "libacconeer_a121.a"),
            triple(
                "acc_detector_distance_a121_stubs.c",
                "acc_detector_distance_a121_stubs.o",
                "libacc_detector_distance_a121.a"
            ),
            triple(
                "acc_detector_presence_a121_stubs.c",
                "acc_detector_presence_a121_stubs.o",
                "libacc_detector_presence_a121.a"
            ),
        ]
    );
    assert_eq!(enabled_groups(ALL), vec![GroupId::Base, GroupId::Distance, GroupId::Presence]);
}

#[test]
fn disabled_distance_group_produces_no_files() {
    let caps = Capabilities { distance: false, presence: true };
    let artifacts = generate_stub_libraries(caps);
    assert_eq!(artifacts.len(), 2);
    for a in &artifacts {
        assert!(!a.source.contains("distance"));
        assert!(!a.object.contains("distance"));
        assert!(!a.archive.contains("distance"));
    }
    let generator = StubGenerator::new(caps);
    assert_eq!(generator.header_files.len(), 2);
    assert!(generator.header_files.iter().all(|g| !g.stub_file.contains("distance")));
    assert!(validate_stub_libraries(caps, true).iter().all(|a| !a.contains("distance")));
}

#[test]
fn disabled_presence_group_produces_no_files() {
    let caps = Capabilities { distance: true, presence: false };
    let artifacts = generate_stub_libraries(caps);
    assert_eq!(artifacts.len(), 2);
    assert_eq!(artifacts[1].archive, "libacc_detector_distance_a121.a");
    assert!(artifacts.iter().all(|a| !a.source.contains("presence")));
}

#[test]
fn header_groups_list_their_headers_in_order() {
    let generator = StubGenerator::new(ALL);
    assert_eq!(generator.header_files.len(), 3);
    assert_eq!(generator.header_files[0].stub_file, "acconeer_a121_stubs.c");
    assert_eq!(
        generator.header_files[0].headers,
        vec![
            "acc_hal_definitions_a121.h",
            "acc_definitions_common.h",
            "acc_processing.h",
            "acc_sensor.h",
            "acc_config.h",
            "acc_config_subsweep.h",
            "acc_definitions_a121.h",
            "acc_version.h",
            "acc_rss_a121.h",
        ]
    );
    assert_eq!(generator.header_files[0].activation, Activation::Always);
    assert_eq!(generator.header_files[1].stub_file, "acc_detector_distance_a121_stubs.c");
    assert_eq!(
        generator.header_files[1].headers,
        vec!["acc_detector_distance_definitions.h", "acc_detector_distance.h"]
    );
    assert_eq!(generator.header_files[1].activation, Activation::Distance);
    assert_eq!(generator.header_files[2].stub_file, "acc_detector_presence_a121_stubs.c");
    assert_eq!(generator.header_files[2].headers, vec!["acc_detector_presence.h"]);
    assert_eq!(generator.header_files[2].activation, Activation::Presence);
}

#[test]
fn default_generator_has_only_the_base_group() {
    let generator = StubGenerator::default();
    assert_eq!(generator.header_files.len(), 1);
    assert_eq!(generator.return_values.get("int32_t").map(|s| s.as_str()), Some("-1"));
}

#[test]
fn activation_follows_the_capabilities() {
    let only_distance = Capabilities { distance: true, presence: false };
    assert!(Activation::Always.is_active(NONE));
    assert!(!Activation::Distance.is_active(NONE));
    assert!(Activation::Distance.is_active(only_distance));
    assert!(!Activation::Presence.is_active(only_distance));
    assert_eq!(GroupId::Presence.activation(), Activation::Presence);
    assert_eq!(GroupId::Distance.library_name(), "acc_detector_distance_a121");
    assert_eq!(GroupId::Base.header_group().headers.len(), 9);
}

#[test]
fn compiler_is_invoked_with_the_target_flags() {
    let invocation = compile_invocation(&job());
    assert_eq!(invocation.program, "arm-none-eabi-gcc");
    assert_eq!(
        invocation.arguments,
        vec![
            "-c",
            "/out/acconeer_a121_stubs.c",
            "-o",
            "/out/acconeer_a121_stubs.o",
            "-I",
            "/rss/include",
            "-mcpu=cortex-m4",
            "-mthumb",
            "-mfloat-abi=hard",
            "-mfpu=fpv4-sp-d16",
            "-DTARGET_ARCH_cm4",
            "-DFLOAT_ABI_HARD",
            "-std=c99",
            "-MMD",
            "-MP",
            "-O2",
            "-g",
            "-fno-math-errno",
            "-ffunction-sections",
            "-fdata-sections",
            "-flto=auto",
            "-ffat-lto-objects",
            "-Werror",
        ]
    );
}

#[test]
fn archiver_follows_a_successful_compile() {
    let invocation = archive_invocation(&job(), &exited(Some(0), "")).unwrap();
    assert_eq!(
        invocation,
        ToolInvocation {
            program: "arm-none-eabi-ar".to_string(),
            arguments: vec![
                "rcs".to_string(),
                "/out/libacconeer_a121.a".to_string(),
                "/out/acconeer_a121_stubs.o".to_string()
            ],
        }
    );
}

#[test]
fn failed_compile_yields_no_archiver_run() {
    assert_eq!(
        archive_invocation(&job(), &exited(Some(1), "error: unused parameter")),
        Err(BuildError::CompilationError(ToolFailure {
            subject: "acconeer_a121_stubs.c".to_string(),
            status: Some(1),
            diagnostics: "error: unused parameter".to_string(),
        }))
    );
    assert_eq!(
        archive_invocation(&job(), &exited(None, "killed")),
        Err(BuildError::CompilationError(ToolFailure {
            subject: "acconeer_a121_stubs.c".to_string(),
            status: None,
            diagnostics: "killed".to_string(),
        }))
    );
    assert_eq!(
        archive_invocation(&job(), &ToolOutcome::NotStarted { reason: "not found".to_string() }),
        Err(BuildError::CompilationError(ToolFailure {
            subject: "acconeer_a121_stubs.c".to_string(),
            status: None,
            diagnostics: "not found".to_string(),
        }))
    );
}

#[test]
fn archiver_outcome_is_judged() {
    assert_eq!(archive_result(&job(), &exited(Some(0), "warning")), Ok(()));
    assert_eq!(
        archive_result(&job(), &exited(Some(2), "ar: bad object")),
        Err(BuildError::ArchiveError(ToolFailure {
            subject: "libacconeer_a121.a".to_string(),
            status: Some(2),
            diagnostics: "ar: bad object".to_string(),
        }))
    );
}

#[test]
fn validator_is_probed_without_arguments() {
    assert_eq!(
        probe_invocation(),
        ToolInvocation { program: "arm-none-eabi-nm".to_string(), arguments: Vec::new() }
    );
    assert!(validator_available(&exited(Some(1), "no input")));
    assert!(validator_available(&exited(Some(0), "")));
    assert!(!validator_available(&ToolOutcome::NotStarted { reason: "missing".to_string() }));
}

#[test]
fn validation_is_skipped_without_the_tool() {
    assert_eq!(validate_stub_libraries(ALL, false), Vec::<String>::new());
    assert_eq!(
        validate_stub_libraries(ALL, true),
        vec!["libacconeer_a121.a", "libacc_detector_distance_a121.a", "libacc_detector_presence_a121.a"]
    );
    assert_eq!(validate_stub_libraries(NONE, true), vec!["libacconeer_a121.a"]);
}

#[test]
fn readable_archive_is_valid() {
    assert_eq!(
        validate_invocation("/out/libacconeer_a121.a"),
        ToolInvocation {
            program: "arm-none-eabi-nm".to_string(),
            arguments: vec!["/out/libacconeer_a121.a".to_string()]
        }
    );
    assert_eq!(validate_stub_library("/out/libacconeer_a121.a", &exited(Some(0), "")), Ok(()));
}

#[test]
fn truncated_archive_surfaces_validation_error() {
    assert_eq!(
        validate_stub_library("/out/libacconeer_a121.a", &exited(Some(1), "nm: file truncated")),
        Err(BuildError::ValidationError(ToolFailure {
            subject: "/out/libacconeer_a121.a".to_string(),
            status: Some(1),
            diagnostics: "nm: file truncated".to_string(),
        }))
    );
}

#[test]
fn outcome_succeeds_only_with_status_zero() {
    assert!(exited(Some(0), "anything").succeeded());
    assert!(!exited(Some(-1), "").succeeded());
    assert!(!exited(None, "").succeeded());
    assert!(!ToolOutcome::NotStarted { reason: String::new() }.succeeded());
    assert_eq!(
        exited(Some(3), "d").failure("f.c"),
        ToolFailure { subject: "f.c".to_string(), status: Some(3), diagnostics: "d".to_string() }
    );
}

#[test]
fn missing_headers_stop_stub_generation() {
    assert_eq!(
        generate_stubs("/rss/include", false, ALL).err(),
        Some(BuildError::HeadersNotFound("/rss/include".to_string()))
    );
    let generator = generate_stubs("/rss/include", true, ALL).unwrap();
    assert_eq!(generator.header_files.len(), 3);
}

#[test]
fn unwritable_source_is_a_synthesis_error() {
    assert_eq!(source_written("acconeer_a121_stubs.c", None), Ok(()));
    assert_eq!(
        source_written("acconeer_a121_stubs.c", Some("Permission denied")),
        Err(BuildError::SynthesisError(
            "Failed to write stub file acconeer_a121_stubs.c: Permission denied".to_string()
        ))
    );
}

#[test]
fn plans_pair_each_group_with_its_files() {
    let plans = a121_stubgen::stub::group_plans(ALL, true);
    let artifacts = generate_stub_libraries(ALL);
    let generator = StubGenerator::new(ALL);
    let archives = validate_stub_libraries(ALL, true);
    assert_eq!(plans.len(), 3);
    for (i, plan) in plans.iter().enumerate() {
        assert_eq!(plan.group.stub_file, generator.header_files[i].stub_file);
        assert_eq!(plan.group.headers, generator.header_files[i].headers);
        assert_eq!(plan.group.stub_file, plan.artifact.source);
        assert_eq!(plan.artifact.source, artifacts[i].source);
        assert_eq!(plan.artifact.object, artifacts[i].object);
        assert_eq!(plan.artifact.archive, artifacts[i].archive);
        assert_eq!(plan.artifact.archive, archives[i]);
        assert!(plan.validate);
    }
    let unchecked = a121_stubgen::stub::group_plans(NONE, false);
    assert_eq!(unchecked.len(), 1);
    assert!(!unchecked[0].validate);
    assert_eq!(unchecked[0].artifact.archive, "libacconeer_a121.a");
}
