use a121_stubgen::error::{BuildError, ToolFailure};
use a121_stubgen::text::decimal;

fn failure(subject: &str, status: Option<i32>, diagnostics: &str) -> ToolFailure {
    ToolFailure { subject: subject.to_string(), status, diagnostics: diagnostics.to_string() }
}

#[test]
fn messages_name_what_went_wrong() {
    assert_eq!(BuildError::EnvVar("OUT_DIR".to_string()).message(), "Environment variable error: OUT_DIR");
    assert_eq!(BuildError::Io("denied".to_string()).message(), "IO error: denied");
    assert_eq!(BuildError::LibraryNotFound(".".to_string()).message(), "Library not found at: .");
    assert_eq!(BuildError::RssPathNotFound.message(), "RSS directory not found");
    assert_eq!(
        BuildError::StubGenerationFailed("why".to_string()).message(),
        "Stub generation failed: why"
    );
    assert_eq!(BuildError::BindgenError("why".to_string()).message(), "Bindgen error: why");
    assert_eq!(BuildError::PythonError("why".to_string()).message(), "Python script error: why");
    assert_eq!(
        BuildError::HeadersNotFound("/rss/include".to_string()).message(),
        "Headers not found at: /rss/include"
    );
    assert_eq!(BuildError::ExtractionError("why".to_string()).message(), "Extraction error: why");
    assert_eq!(BuildError::SynthesisError("why".to_string()).message(), "Synthesis error: why");
}

#[test]
fn tool_failures_carry_status_and_diagnostics() {
    assert_eq!(
        BuildError::CompilationError(failure("a.c", Some(1), "a.c:3: error")).message(),
        "Compilation error: Failed to compile a.c (exit status 1): a.c:3: error"
    );
    assert_eq!(
        BuildError::ArchiveError(failure("liba.a", Some(-11), "")).message(),
        "Archive error: Failed to create archive liba.a (exit status -11)"
    );
    assert_eq!(
        BuildError::ValidationError(failure("/out/liba.a", None, "could not start")).message(),
        "Validation error: Failed to validate stub library /out/liba.a (no exit status): could not start"
    );
    assert_eq!(failure("x", Some(0), "").describe(), "x (exit status 0)");
}

#[test]
fn decimal_notation_of_exit_statuses() {
    assert_eq!(decimal(0), "0");
    assert_eq!(decimal(7), "7");
    assert_eq!(decimal(10), "10");
    assert_eq!(decimal(255), "255");
    assert_eq!(decimal(-1), "-1");
    assert_eq!(decimal(1234567890), "1234567890");
    assert_eq!(decimal(i32::MAX), "2147483647");
    assert_eq!(decimal(i32::MIN), "-2147483648");
}
